use mtld::manifest::Manifest;
use mtld::unity::{
    albedo_texture_flags, format_filename, meta_file_name, meta_textures, texture_flags, texture_guid, MetaTexture, material_file_name, material_pack_exists, material_pack_texture_flags, name_matches,
    normal_texture_flags, render_material, render_texture_meta, shader_keywords, TextureGuids,
};

fn manifest(opacity: bool, normal: bool, metalness: bool, roughness: bool, ao: bool) -> Manifest {
    Manifest {
        name: "Rock".to_string(),
        albedo: true,
        opacity,
        normal,
        metalness,
        roughness,
        ambient_occlusion: ao,
        displacement: false,
    }
}

#[test]
fn keywords() {
    assert_eq!(shader_keywords(&manifest(false, false, false, false, false)), "");
    assert_eq!(shader_keywords(&manifest(false, true, false, false, false)), "_NORMALMAP");
    assert_eq!(
        shader_keywords(&manifest(true, true, false, true, true)),
        "_ALPHATEST_ON _NORMALMAP _METALLICSPECGLOSSMAP _OCCLUSIONMAP"
    );
}

#[test]
fn references() {
    assert_eq!(format_filename(true, "abc"), "{fileID: 2800000, guid: abc, type: 3}");
    assert_eq!(format_filename(false, "abc"), "{fileID: 0}");
}

#[test]
fn texture_meta() {
    let t = "g=$$TEXTURE_GUID$$ s=$$TEXTURE_SRGB$$ a=$$TEXTURE_ALPHA$$ o=$$TEXTURE_OPACITY$$ t=$$TEXTURE_TYPE$$";
    let m = manifest(true, false, false, false, false);
    assert_eq!(render_texture_meta(t, "G", albedo_texture_flags(&m)), "g=G s=1 a=1 o=1 t=0");
    assert_eq!(render_texture_meta(t, "G", normal_texture_flags()), "g=G s=0 a=0 o=0 t=1");
    assert_eq!(render_texture_meta(t, "G", material_pack_texture_flags()), "g=G s=0 a=1 o=0 t=0");
}

#[test]
fn material_file() {
    let t = "$$MATERIAL_NAME$$|$$SHADER_KEYWORDS$$|$$RENDER_TYPE$$|$$COLOR_TEXTURE$$|$$NORMAL_TEXTURE$$|$$METALLIC_GLOSS_TEXTURE$$|$$AO_TEXTURE$$|$$ALPHA_CLIP$$";
    let g = TextureGuids { albedo: "A".to_string(), normal: "N".to_string(), material_pack: "P".to_string() };
    let m = manifest(false, false, false, true, false);
    assert_eq!(
        render_material(t, &m, &g),
        "Rock|_METALLICSPECGLOSSMAP|Opaque|{fileID: 2800000, guid: A, type: 3}|{fileID: 0}|{fileID: 2800000, guid: P, type: 3}|{fileID: 0}|0"
    );
    assert_eq!(material_file_name(&m), "Rock.mat");
    assert!(name_matches(&m, "Rock"));
    assert!(!name_matches(&m, "Rock2"));
}

#[test]
fn material_pack_presence() {
    assert!(!material_pack_exists(&manifest(true, true, false, false, false)));
    assert!(material_pack_exists(&manifest(false, false, false, false, true)));
    let mut m = manifest(false, false, false, false, false);
    m.displacement = true;
    assert!(material_pack_exists(&m));
}

#[test]
fn metadata_files() {
    let m = manifest(false, true, false, false, true);
    assert_eq!(meta_textures(&m), vec![MetaTexture::Albedo, MetaTexture::Normal, MetaTexture::MaterialPack]);
    let mut bare = manifest(false, false, false, false, false);
    bare.albedo = false;
    assert!(meta_textures(&bare).is_empty());
    assert_eq!(meta_file_name(MetaTexture::Normal), "Normal.png.meta");
    assert_eq!(texture_flags(MetaTexture::Normal, &m), normal_texture_flags());
    let g = TextureGuids { albedo: "A".to_string(), normal: "N".to_string(), material_pack: "P".to_string() };
    assert_eq!(texture_guid(&g, MetaTexture::MaterialPack), "P");
}

#[test]
fn overlapping_placeholders() {
    assert_eq!(render_texture_meta("$$TEXTURE_GUID$$$$TEXTURE_GUID$$", "x", normal_texture_flags()), "xx");
    assert_eq!(render_texture_meta("no placeholder", "x", normal_texture_flags()), "no placeholder");
}
