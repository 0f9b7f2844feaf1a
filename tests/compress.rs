use image::DynamicImage;
use mtld::codec::PixelLayout;
use mtld::compress::{
    check_layout, compressed_file_name, compression_settings, prepare_texture, source_file_name, ColorSpace,
    CompressionSettings, TextureRole,
};
use mtld::error::ApplicationError;

fn png(img: DynamicImage) -> Vec<u8> {
    let mut out = Vec::new();
    img.write_to(&mut out, image::ImageOutputFormat::Png).unwrap();
    out
}

#[test]
fn settings_per_role() {
    assert_eq!(
        compression_settings(TextureRole::Albedo, false),
        CompressionSettings { color_space: ColorSpace::Srgb, tune_for_normal_maps: false, channels: 3 }
    );
    assert_eq!(
        compression_settings(TextureRole::Albedo, true),
        CompressionSettings { color_space: ColorSpace::Srgb, tune_for_normal_maps: false, channels: 4 }
    );
    assert_eq!(
        compression_settings(TextureRole::Normal, true),
        CompressionSettings { color_space: ColorSpace::Linear, tune_for_normal_maps: true, channels: 3 }
    );
    assert_eq!(
        compression_settings(TextureRole::MaterialPack, false),
        CompressionSettings { color_space: ColorSpace::Linear, tune_for_normal_maps: false, channels: 4 }
    );
}

#[test]
fn declared_opacity_with_rgb_image_is_invalid() {
    match check_layout(TextureRole::Albedo, true, PixelLayout { channels: 3, bytes_per_pixel: 3 }, "Foo_Color.png") {
        Err(ApplicationError::InvalidImage(p)) => assert_eq!(p, "Foo_Color.png"),
        other => panic!("unexpected {:?}", other),
    }
    assert!(check_layout(TextureRole::Albedo, false, PixelLayout { channels: 3, bytes_per_pixel: 3 }, "a").is_ok());
    assert!(check_layout(TextureRole::Albedo, false, PixelLayout { channels: 4, bytes_per_pixel: 4 }, "a").is_err());
    assert!(check_layout(TextureRole::Normal, false, PixelLayout { channels: 1, bytes_per_pixel: 1 }, "a").is_err());
    assert!(check_layout(TextureRole::MaterialPack, false, PixelLayout { channels: 4, bytes_per_pixel: 4 }, "a").is_ok());
}

#[test]
fn prepare_rejects_rgb_albedo_with_opacity() {
    let data = png(DynamicImage::ImageRgb8(image::RgbImage::new(4, 4)));
    match prepare_texture(TextureRole::Albedo, true, &data, "Foo_Color.png") {
        Err(ApplicationError::InvalidImage(p)) => assert_eq!(p, "Foo_Color.png"),
        other => panic!("unexpected {:?}", other.map(|t| t.width)),
    }
}

#[test]
fn prepare_reads_pixels() {
    let img = image::RgbaImage::from_fn(3, 2, |x, y| image::Rgba([x as u8, y as u8, 7, 9]));
    let data = png(DynamicImage::ImageRgba8(img.clone()));
    let t = prepare_texture(TextureRole::MaterialPack, false, &data, "p").unwrap();
    assert_eq!((t.width, t.height), (3, 2));
    assert_eq!(t.pixels, img.into_raw());
    assert_eq!(t.settings.channels, 4);
    assert!(matches!(prepare_texture(TextureRole::Normal, false, &[1, 2, 3], "p"), Err(ApplicationError::Image(_))));
    let gray = png(DynamicImage::ImageLuma8(image::GrayImage::new(2, 2)));
    assert!(matches!(prepare_texture(TextureRole::Normal, false, &gray, "n"), Err(ApplicationError::InvalidImage(_))));
}

#[test]
fn file_names() {
    assert_eq!(source_file_name(TextureRole::Normal), "Normal.png");
    assert_eq!(compressed_file_name(TextureRole::Albedo), "Albedo.basisu");
    assert_eq!(
        compressed_file_name(TextureRole::MaterialPack),
        "MetallicOcclusionDisplacementRoughness.basisu"
    );
}
