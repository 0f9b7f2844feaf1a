use vstd::prelude::*;

use crate::channels::Channels;

verus! {

/// Which logical slots of a material were filled from its archive.
#[derive(Debug)]
pub struct Manifest {
    pub name: String,
    pub albedo: bool,
    pub opacity: bool,
    pub normal: bool,
    pub metalness: bool,
    pub roughness: bool,
    pub ambient_occlusion: bool,
    pub displacement: bool,
}

/// Text of a string as Rust's `Debug` writes it: in double quotes, with
/// quotes, backslashes and non-printable characters escaped.
pub uninterp spec fn debug_quoted(s: Seq<char>) -> Seq<char>;

/// Relies on the `Debug` formatting of `str`.
#[verifier::external_body]
fn quoted(s: &str) -> (r: String)
    ensures
        r@ == debug_quoted(s@),
{
    format!("{:?}", s)
}

pub open spec fn bool_text(b: bool) -> Seq<char> {
    if b {
        "true"@
    } else {
        "false"@
    }
}

/// The manifest file: a JSON object with the quoted name and one boolean per
/// slot, one member per line.
pub open spec fn manifest_json(
    name: Seq<char>,
    albedo: bool,
    opacity: bool,
    normal: bool,
    metalness: bool,
    roughness: bool,
    ambient_occlusion: bool,
    displacement: bool,
) -> Seq<char> {
    "{\n \"name\": "@ + debug_quoted(name) + ",\n \"albedo\": "@ + bool_text(albedo)
        + ",\n \"opacity\": "@ + bool_text(opacity) + ",\n \"normal\": "@ + bool_text(normal)
        + ",\n \"metalness\": "@ + bool_text(metalness) + ",\n \"roughness\": "@ + bool_text(
        roughness,
    ) + ",\n \"ao\": "@ + bool_text(ambient_occlusion) + ",\n \"displacement\": "@
        + bool_text(displacement) + "\n}"@
}

pub open spec fn manifest_text(m: Manifest) -> Seq<char> {
    manifest_json(
        m.name@,
        m.albedo,
        m.opacity,
        m.normal,
        m.metalness,
        m.roughness,
        m.ambient_occlusion,
        m.displacement,
    )
}

/// The manifest text of material `name` whose slots were classified as `c`.
pub open spec fn manifest_text_for(name: Seq<char>, c: Channels) -> Seq<char> {
    manifest_json(
        name,
        c.albedo is Some,
        c.opacity is Some,
        c.normal is Some,
        c.metalness is Some,
        c.roughness is Some,
        c.ambient_occlusion is Some,
        c.displacement is Some,
    )
}

pub open spec fn describes(m: Manifest, name: Seq<char>, c: Channels) -> bool {
    &&& m.name@ == name
    &&& m.albedo == c.albedo is Some
    &&& m.opacity == c.opacity is Some
    &&& m.normal == c.normal is Some
    &&& m.metalness == c.metalness is Some
    &&& m.roughness == c.roughness is Some
    &&& m.ambient_occlusion == c.ambient_occlusion is Some
    &&& m.displacement == c.displacement is Some
}

/// The manifest of material `name` whose slots were classified as `c`.
pub fn manifest_for(name: &str, c: &Channels) -> (r: Manifest)
    ensures
        describes(r, name@, *c),
{
    Manifest {
        name: String::from_str(name),
        albedo: c.albedo.is_some(),
        opacity: c.opacity.is_some(),
        normal: c.normal.is_some(),
        metalness: c.metalness.is_some(),
        roughness: c.roughness.is_some(),
        ambient_occlusion: c.ambient_occlusion.is_some(),
        displacement: c.displacement.is_some(),
    }
}

fn append_member(s: &mut String, key: &str, value: bool)
    ensures
        final(s)@ == old(s)@ + key@ + bool_text(value),
{
    s.append(key);
    if value {
        s.append("true");
    } else {
        s.append("false");
    }
}

/// Writes the manifest file's text.
pub fn render_manifest(m: &Manifest) -> (r: String)
    ensures
        r@ == manifest_text(*m),
{
    let mut s = String::from_str("{\n \"name\": ");
    let q = quoted(m.name.as_str());
    s.append(q.as_str());
    append_member(&mut s, ",\n \"albedo\": ", m.albedo);
    append_member(&mut s, ",\n \"opacity\": ", m.opacity);
    append_member(&mut s, ",\n \"normal\": ", m.normal);
    append_member(&mut s, ",\n \"metalness\": ", m.metalness);
    append_member(&mut s, ",\n \"roughness\": ", m.roughness);
    append_member(&mut s, ",\n \"ao\": ", m.ambient_occlusion);
    append_member(&mut s, ",\n \"displacement\": ", m.displacement);
    s.append("\n}");
    s
}

} // verus!
