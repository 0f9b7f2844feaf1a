use mtld::error::ApplicationError;
use mtld::channels::Channels;
use mtld::manifest::{manifest_for, render_manifest};
use mtld::plan::{decimal_string, plan_pack, scratch_file_name, should_write, Existing, PackPlan};

fn channels() -> Channels {
    Channels {
        albedo: Some(0),
        opacity: None,
        normal: None,
        metalness: None,
        roughness: Some(1),
        ambient_occlusion: None,
        displacement: None,
    }
}

#[test]
fn write_decision() {
    assert!(should_write(true, true));
    assert!(should_write(false, false));
    assert!(!should_write(false, true));
}

#[test]
fn plan_follows_existence_and_force() {
    let none = Existing { manifest: false, albedo: false, normal: false, material_pack: false };
    let p = plan_pack(&channels(), &none, false);
    assert_eq!(p, PackPlan { manifest: true, albedo: true, normal: false, material_pack: true });
    let after = Existing { manifest: true, albedo: true, normal: false, material_pack: true };
    let second = plan_pack(&channels(), &after, false);
    assert_eq!(second, PackPlan { manifest: false, albedo: false, normal: false, material_pack: false });
    let forced = plan_pack(&channels(), &after, true);
    assert_eq!(forced, PackPlan { manifest: true, albedo: true, normal: false, material_pack: true });
}

#[test]
fn scratch_names() {
    assert_eq!(scratch_file_name("mtldpack", None), "mtldpack.tmp");
    assert_eq!(scratch_file_name("mtldpack", Some(0)), "mtldpack0.tmp");
    assert_eq!(scratch_file_name("mtldbasisu", Some(17)), "mtldbasisu17.tmp");
    assert_ne!(scratch_file_name("mtldpack", Some(1)), scratch_file_name("mtldpack", Some(11)));
}

#[test]
fn decimal_notation() {
    assert_eq!(decimal_string(0), "0");
    assert_eq!(decimal_string(9), "9");
    assert_eq!(decimal_string(10), "10");
    assert_eq!(decimal_string(4096), "4096");
    assert_eq!(decimal_string(usize::MAX), usize::MAX.to_string());
}

#[test]
fn manifest_text() {
    let m = manifest_for("Brick \"01\"", &channels());
    assert_eq!(m.name, "Brick \"01\"");
    assert!(m.albedo && m.roughness && !m.opacity && !m.normal);
    assert_eq!(
        render_manifest(&m),
        "{\n \"name\": \"Brick \\\"01\\\"\",\n \"albedo\": true,\n \"opacity\": false,\n \"normal\": false,\n \"metalness\": false,\n \"roughness\": true,\n \"ao\": false,\n \"displacement\": false\n}"
    );
}

#[test]
fn errors_convert() {
    let e = ApplicationError::from(std::io::Error::new(std::io::ErrorKind::Other, "x"));
    assert!(matches!(e, ApplicationError::Io(_)));
    let e = ApplicationError::from(zip::result::ZipError::FileNotFound);
    assert!(matches!(e, ApplicationError::Zip(zip::result::ZipError::FileNotFound)));
}
