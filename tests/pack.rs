use std::io::{Cursor, Write};

use image::imageops::FilterType;
use image::{DynamicImage, GenericImageView};
use mtld::channels::NormalMapType;
use mtld::error::ApplicationError;
use mtld::pack::{artifact_file_name, pack_item, Output};
use mtld::plan::{Artifact, Existing};

fn rgb_png(w: u32, h: u32, seed: u8) -> Vec<u8> {
    let img = image::RgbImage::from_fn(w, h, |x, y| {
        image::Rgb([(x * 30) as u8 ^ seed, (y * 20) as u8, seed.wrapping_add((x + y) as u8)])
    });
    let mut out = Vec::new();
    DynamicImage::ImageRgb8(img).write_to(&mut out, image::ImageOutputFormat::Png).unwrap();
    out
}

fn gray_png(w: u32, h: u32, seed: u8) -> Vec<u8> {
    let img = image::GrayImage::from_fn(w, h, |x, y| image::Luma([seed.wrapping_add((x * 7 + y * 13) as u8)]));
    let mut out = Vec::new();
    DynamicImage::ImageLuma8(img).write_to(&mut out, image::ImageOutputFormat::Png).unwrap();
    out
}

fn zip_of(entries: &[(&str, Vec<u8>)]) -> Vec<u8> {
    let mut w = zip::ZipWriter::new(Cursor::new(Vec::new()));
    for (name, data) in entries {
        w.start_file(*name, zip::write::FileOptions::default()).unwrap();
        w.write_all(data).unwrap();
    }
    w.finish().unwrap().into_inner()
}

fn nothing() -> Existing {
    Existing { manifest: false, albedo: false, normal: false, material_pack: false }
}

fn find(outs: &[Output], a: Artifact) -> Option<&Output> {
    outs.iter().find(|o| o.artifact == a)
}

fn artifacts(outs: &[Output]) -> Vec<Artifact> {
    outs.iter().map(|o| o.artifact).collect()
}

#[test]
fn color_and_roughness_only() {
    let color = rgb_png(8, 8, 3);
    let rough = gray_png(8, 8, 40);
    let archive = zip_of(&[("Foo_Color.png", color.clone()), ("Foo_Roughness.png", rough.clone())]);
    let outs = pack_item(archive, "Foo", NormalMapType::OpenGL, 4, 4, None, nothing(), false).unwrap();
    assert_eq!(artifacts(&outs), vec![Artifact::Manifest, Artifact::Albedo, Artifact::MaterialPack]);

    let albedo = image::load_from_memory(&find(&outs, Artifact::Albedo).unwrap().bytes).unwrap();
    assert_eq!(albedo.color(), image::ColorType::Rgb8);
    assert_eq!(albedo.dimensions(), (4, 4));
    let expected = image::load_from_memory(&color).unwrap().resize_exact(4, 4, FilterType::Lanczos3).into_rgb8();
    assert_eq!(albedo.into_rgb8().into_raw(), expected.into_raw());

    let pack = image::load_from_memory(&find(&outs, Artifact::MaterialPack).unwrap().bytes).unwrap();
    assert_eq!(pack.color(), image::ColorType::Rgba8);
    let pack = pack.into_rgba8().into_raw();
    let rough = image::load_from_memory(&rough).unwrap().resize_exact(4, 4, FilterType::Lanczos3).into_luma8().into_raw();
    assert_eq!(pack.len(), 64);
    for i in 0..16 {
        assert_eq!(pack[4 * i], 0);
        assert_eq!(pack[4 * i + 1], 0);
        assert_eq!(pack[4 * i + 2], 0);
        assert_eq!(pack[4 * i + 3], rough[i]);
    }

    let manifest = String::from_utf8(find(&outs, Artifact::Manifest).unwrap().bytes.clone()).unwrap();
    assert_eq!(
        manifest,
        "{\n \"name\": \"Foo\",\n \"albedo\": true,\n \"opacity\": false,\n \"normal\": false,\n \"metalness\": false,\n \"roughness\": true,\n \"ao\": false,\n \"displacement\": false\n}"
    );
}

#[test]
fn opacity_becomes_alpha() {
    let color = rgb_png(6, 6, 9);
    let opacity = gray_png(6, 6, 100);
    let archive = zip_of(&[("Foo_Opacity.png", opacity.clone()), ("Foo_Color.png", color.clone())]);
    let outs = pack_item(archive, "Foo", NormalMapType::OpenGL, 3, 3, None, nothing(), false).unwrap();
    let albedo = image::load_from_memory(&find(&outs, Artifact::Albedo).unwrap().bytes).unwrap();
    assert_eq!(albedo.color(), image::ColorType::Rgba8);
    let albedo = albedo.into_rgba8().into_raw();
    let rgb = image::load_from_memory(&color).unwrap().resize_exact(3, 3, FilterType::Lanczos3).into_rgb8().into_raw();
    let alpha = image::load_from_memory(&opacity).unwrap().resize_exact(3, 3, FilterType::Lanczos3).into_luma8().into_raw();
    for i in 0..9 {
        assert_eq!(&albedo[4 * i..4 * i + 3], &rgb[3 * i..3 * i + 3]);
        assert_eq!(albedo[4 * i + 3], alpha[i]);
    }
}

#[test]
fn normal_convention_selects_entry() {
    let gl = rgb_png(4, 4, 1);
    let dx = rgb_png(4, 4, 200);
    let archive = zip_of(&[("Foo_NormalGL.png", gl.clone()), ("Foo_NormalDX.png", dx.clone())]);
    let with_gl = pack_item(archive.clone(), "Foo", NormalMapType::OpenGL, 4, 4, None, nothing(), false).unwrap();
    let with_dx = pack_item(archive, "Foo", NormalMapType::Direct3D, 4, 4, None, nothing(), false).unwrap();
    let n_gl = image::load_from_memory(&find(&with_gl, Artifact::Normal).unwrap().bytes).unwrap().into_rgb8().into_raw();
    let n_dx = image::load_from_memory(&find(&with_dx, Artifact::Normal).unwrap().bytes).unwrap().into_rgb8().into_raw();
    assert_eq!(n_gl, image::load_from_memory(&gl).unwrap().into_rgb8().into_raw());
    assert_eq!(n_dx, image::load_from_memory(&dx).unwrap().into_rgb8().into_raw());
    assert_ne!(n_gl, n_dx);
}

#[test]
fn existing_artifacts_are_skipped() {
    let archive = zip_of(&[("Foo_Color.png", rgb_png(4, 4, 5)), ("Foo_AmbientOcclusion.png", gray_png(4, 4, 1))]);
    let all = Existing { manifest: true, albedo: true, normal: true, material_pack: true };
    let outs = pack_item(archive.clone(), "Foo", NormalMapType::OpenGL, 2, 2, None, all, false).unwrap();
    assert!(outs.is_empty());
    let partial = Existing { manifest: true, albedo: false, normal: true, material_pack: true };
    let outs = pack_item(archive.clone(), "Foo", NormalMapType::OpenGL, 2, 2, None, partial, false).unwrap();
    assert_eq!(artifacts(&outs), vec![Artifact::Albedo]);
    let outs = pack_item(archive, "Foo", NormalMapType::OpenGL, 2, 2, None, all, true).unwrap();
    assert_eq!(artifacts(&outs), vec![Artifact::Manifest, Artifact::Albedo, Artifact::MaterialPack]);
}

#[test]
fn repeated_runs_give_identical_bytes() {
    let archive = zip_of(&[
        ("Foo_Color.png", rgb_png(5, 5, 7)),
        ("Foo_Metalness.png", gray_png(5, 5, 2)),
        ("Foo_NormalGL.png", rgb_png(5, 5, 90)),
    ]);
    let a = pack_item(archive.clone(), "Foo", NormalMapType::OpenGL, 4, 2, None, nothing(), false).unwrap();
    let b = pack_item(archive, "Foo", NormalMapType::OpenGL, 4, 2, None, nothing(), true).unwrap();
    assert_eq!(a.len(), 4);
    for (x, y) in a.iter().zip(b.iter()) {
        assert_eq!(x.artifact, y.artifact);
        assert_eq!(x.bytes, y.bytes);
    }
}

#[test]
fn corrupt_archive_is_a_zip_error() {
    let r = pack_item(vec![1, 2, 3, 4], "Foo", NormalMapType::OpenGL, 2, 2, None, nothing(), false);
    assert!(matches!(r, Err(ApplicationError::Zip(_))));
}

#[test]
fn undecodable_entry_is_an_image_error() {
    let archive = zip_of(&[("Foo_Color.png", vec![0u8; 16])]);
    let r = pack_item(archive, "Foo", NormalMapType::OpenGL, 2, 2, None, nothing(), false);
    assert!(matches!(r, Err(ApplicationError::Image(_))));
}

#[test]
fn artifact_names() {
    assert_eq!(artifact_file_name(Artifact::Manifest), "Material.json");
    assert_eq!(artifact_file_name(Artifact::Albedo), "Albedo.png");
    assert_eq!(artifact_file_name(Artifact::Normal), "Normal.png");
    assert_eq!(artifact_file_name(Artifact::MaterialPack), "MetallicOcclusionDisplacementRoughness.png");
}

#[test]
fn declared_opacity_with_rgb_color_is_invalid() {
    let archive = zip_of(&[("Foo_Color.png", rgb_png(4, 4, 3)), ("Foo_Opacity.png", gray_png(4, 4, 1))]);
    match pack_item(archive.clone(), "Foo", NormalMapType::OpenGL, 2, 2, Some(true), nothing(), false) {
        Err(ApplicationError::InvalidImage(p)) => assert_eq!(p, "Foo_Color.png"),
        other => panic!("unexpected {:?}", other.map(|o| o.len())),
    }
    let outs = pack_item(archive, "Foo", NormalMapType::OpenGL, 2, 2, Some(false), nothing(), false).unwrap();
    assert_eq!(artifacts(&outs), vec![Artifact::Manifest, Artifact::Albedo]);
}

#[test]
fn unused_entries_do_not_matter() {
    let gl = rgb_png(4, 4, 1);
    let archive = zip_of(&[("Foo_NormalGL.png", gl), ("Foo_NormalDX.png", vec![9u8; 10]), ("notes.txt", vec![1, 2])]);
    let outs = pack_item(archive, "Foo", NormalMapType::OpenGL, 2, 2, None, nothing(), false).unwrap();
    assert_eq!(artifacts(&outs), vec![Artifact::Manifest, Artifact::Normal]);
}

#[test]
fn zero_size_fails_only_when_an_image_is_due() {
    let archive = zip_of(&[("Foo_Color.png", rgb_png(4, 4, 3))]);
    assert!(matches!(
        pack_item(archive.clone(), "Foo", NormalMapType::OpenGL, 0, 2, None, nothing(), false),
        Err(ApplicationError::Image(_))
    ));
    let only_manifest = Existing { manifest: false, albedo: true, normal: true, material_pack: true };
    let outs = pack_item(archive, "Foo", NormalMapType::OpenGL, 0, 2, None, only_manifest, false).unwrap();
    assert_eq!(artifacts(&outs), vec![Artifact::Manifest]);
}
