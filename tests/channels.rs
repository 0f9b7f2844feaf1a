use mtld::channels::{classify, slot_of_name, ChannelSlot, Channels, NormalMapType};
use mtld::composite::{compose_albedo, compose_material_pack};
use mtld::error::ApplicationError;

fn names(list: &[&str]) -> Vec<Vec<u8>> {
    list.iter().map(|s| s.as_bytes().to_vec()).collect()
}

#[test]
fn classifies_every_suffix() {
    let n = names(&[
        "Wood_Color.jpg",
        "Wood_Opacity.jpg",
        "Wood_NormalGL.jpg",
        "Wood_NormalDX.jpg",
        "Wood_Metalness.jpg",
        "Wood_Roughness.jpg",
        "Wood_AmbientOcclusion.jpg",
        "Wood_Displacement.jpg",
        "Wood.usda",
    ]);
    let gl = classify(&n, NormalMapType::OpenGL);
    assert_eq!(
        gl,
        Channels {
            albedo: Some(0),
            opacity: Some(1),
            normal: Some(2),
            metalness: Some(4),
            roughness: Some(5),
            ambient_occlusion: Some(6),
            displacement: Some(7),
        }
    );
    let dx = classify(&n, NormalMapType::Direct3D);
    assert_eq!(dx.normal, Some(3));
    assert_eq!(dx.albedo, Some(0));
}

#[test]
fn later_entry_wins() {
    let n = names(&["A_Color.png", "B_Color.png", "C_Roughness.png"]);
    let c = classify(&n, NormalMapType::OpenGL);
    assert_eq!(c.albedo, Some(1));
    assert_eq!(c.roughness, Some(2));
}

#[test]
fn suffix_is_read_before_first_dot() {
    assert_eq!(slot_of_name(b"Foo_Color.png", NormalMapType::OpenGL), Some(ChannelSlot::Albedo));
    assert_eq!(slot_of_name(b"Foo_Color", NormalMapType::OpenGL), Some(ChannelSlot::Albedo));
    assert_eq!(slot_of_name(b"Foo.x_Color.png", NormalMapType::OpenGL), None);
    assert_eq!(slot_of_name(b"Foo_Colorful.png", NormalMapType::OpenGL), None);
    assert_eq!(slot_of_name(b"Foo_NormalDX.png", NormalMapType::OpenGL), None);
    assert_eq!(slot_of_name(b"Foo_NormalGL.png", NormalMapType::Direct3D), None);
    assert_eq!(slot_of_name(b"", NormalMapType::OpenGL), None);
}

#[test]
fn empty_archive_fills_nothing() {
    let c = classify(&Vec::new(), NormalMapType::OpenGL);
    assert_eq!(c.albedo, None);
    assert_eq!(c.normal, None);
    assert_eq!(c.displacement, None);
}

#[test]
fn parses_normal_map_type() {
    assert_eq!(NormalMapType::parse("OpenGL").unwrap(), NormalMapType::OpenGL);
    assert_eq!(NormalMapType::parse("Direct3D").unwrap(), NormalMapType::Direct3D);
    assert_eq!("Direct3D".parse::<NormalMapType>().unwrap(), NormalMapType::Direct3D);
    match NormalMapType::parse("opengl") {
        Err(ApplicationError::InvalidParameter(s)) => assert_eq!(s, "opengl"),
        other => panic!("unexpected {:?}", other),
    }
}

#[test]
fn albedo_gets_alpha() {
    let r = compose_albedo(&vec![1, 2, 3, 4, 5, 6], &vec![9, 8]);
    assert_eq!(r, vec![1, 2, 3, 9, 4, 5, 6, 8]);
    assert_eq!(compose_albedo(&vec![], &vec![]), Vec::<u8>::new());
}

#[test]
fn material_pack_channels() {
    let r = compose_material_pack(&Some(vec![1, 2]), &None, &Some(vec![5, 6]), &Some(vec![7, 8]), 2);
    assert_eq!(r, vec![1, 0, 5, 7, 2, 0, 6, 8]);
    let only_roughness = compose_material_pack(&None, &None, &None, &Some(vec![200, 100, 50]), 3);
    assert_eq!(only_roughness, vec![0, 0, 0, 200, 0, 0, 0, 100, 0, 0, 0, 50]);
}
