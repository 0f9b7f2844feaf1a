use vstd::prelude::*;

use crate::channels::bytes_equal;
use crate::manifest::Manifest;
use vstd::string::StringSliceAdditionalSpecFns;
use vstd::utf8::encode_utf8;

verus! {

/// `s` with every occurrence of `from` replaced by `to`: occurrences are
/// found from the left and do not overlap; an empty `from` matches before
/// every character and at the end.
pub open spec fn replaced(s: Seq<char>, from: Seq<char>, to: Seq<char>) -> Seq<char>
    decreases s.len(),
{
    if from.len() == 0 {
        if s.len() == 0 {
            to
        } else {
            to + seq![s[0]] + replaced(s.drop_first(), from, to)
        }
    } else if s.len() < from.len() {
        s
    } else if s.take(from.len() as int) == from {
        to + replaced(s.skip(from.len() as int), from, to)
    } else {
        seq![s[0]] + replaced(s.drop_first(), from, to)
    }
}

/// Relies on `str::replace`, which replaces the non-overlapping occurrences
/// of `from`, found from the left, by `to`.
#[verifier::external_body]
fn replace_all(s: &str, from: &str, to: &str) -> (r: String)
    ensures
        r@ == replaced(s@, from@, to@),
{
    s.replace(from, to)
}

pub open spec fn flag_text(b: bool) -> Seq<char> {
    if b {
        "1"@
    } else {
        "0"@
    }
}

fn flag(b: bool) -> (r: &'static str)
    ensures
        r@ == flag_text(b),
{
    if b {
        "1"
    } else {
        "0"
    }
}

/// Appends `word` to a space-separated list when `on` holds.
pub open spec fn add_keyword(list: Seq<char>, on: bool, word: Seq<char>) -> Seq<char> {
    if !on {
        list
    } else if list.len() == 0 {
        word
    } else {
        list + " "@ + word
    }
}

/// The shader keywords a material enables, separated by single spaces.
pub open spec fn keywords_for(m: Manifest) -> Seq<char> {
    add_keyword(
        add_keyword(
            add_keyword(
                add_keyword(Seq::empty(), m.opacity, "_ALPHATEST_ON"@),
                m.normal,
                "_NORMALMAP"@,
            ),
            m.roughness || m.metalness,
            "_METALLICSPECGLOSSMAP"@,
        ),
        m.ambient_occlusion,
        "_OCCLUSIONMAP"@,
    )
}

/// Whether a material has a packed metalness/occlusion/displacement/roughness image.
pub open spec fn has_material_pack(m: Manifest) -> bool {
    m.metalness || m.roughness || m.ambient_occlusion || m.displacement
}

/// Whether a material has a packed metalness/occlusion/displacement/roughness image.
pub fn material_pack_exists(m: &Manifest) -> (r: bool)
    ensures
        r == has_material_pack(*m),
{
    m.metalness || m.roughness || m.ambient_occlusion || m.displacement
}

fn push_keyword(list: &mut String, on: bool, word: &str)
    ensures
        final(list)@ == add_keyword(old(list)@, on, word@),
{
    if on {
        if list.as_str().is_empty() {
            list.append(word);
        } else {
            list.append(" ");
            list.append(word);
        }
    }
}

/// The space-separated shader keyword list of a material.
pub fn shader_keywords(m: &Manifest) -> (r: String)
    ensures
        r@ == keywords_for(*m),
{
    let mut s = String::new();
    push_keyword(&mut s, m.opacity, "_ALPHATEST_ON");
    push_keyword(&mut s, m.normal, "_NORMALMAP");
    push_keyword(&mut s, m.roughness || m.metalness, "_METALLICSPECGLOSSMAP");
    push_keyword(&mut s, m.ambient_occlusion, "_OCCLUSIONMAP");
    s
}

pub open spec fn reference_text(exists: bool, guid: Seq<char>) -> Seq<char> {
    if exists {
        "{fileID: 2800000, guid: "@ + guid + ", type: 3}"@
    } else {
        "{fileID: 0}"@
    }
}

/// A texture reference of a material file: the texture's guid, or the null
/// reference when the texture does not exist.
pub fn format_filename(exists: bool, guid: &str) -> (r: String)
    ensures
        r@ == reference_text(exists, guid@),
{
    if exists {
        let mut s = String::from_str("{fileID: 2800000, guid: ");
        s.append(guid);
        s.append(", type: 3}");
        s
    } else {
        String::from_str("{fileID: 0}")
    }
}

/// The placeholder values of one texture's metadata file.
#[derive(Debug, Clone, Copy, PartialEq, Eq, Structural)]
pub struct TextureFlags {
    pub srgb: bool,
    pub alpha: bool,
    pub opacity: bool,
    pub normal_map: bool,
}

/// The albedo texture is sRGB and carries alpha when the material has
/// opacity; the normal map is linear and marked as a normal map; the packed
/// material image is linear with alpha.
pub open spec fn albedo_flags(m: Manifest) -> TextureFlags {
    TextureFlags { srgb: true, alpha: m.opacity, opacity: m.opacity, normal_map: false }
}

pub open spec fn normal_flags() -> TextureFlags {
    TextureFlags { srgb: false, alpha: false, opacity: false, normal_map: true }
}

pub open spec fn material_pack_flags() -> TextureFlags {
    TextureFlags { srgb: false, alpha: true, opacity: false, normal_map: false }
}

pub fn albedo_texture_flags(m: &Manifest) -> (r: TextureFlags)
    ensures
        r == albedo_flags(*m),
{
    TextureFlags { srgb: true, alpha: m.opacity, opacity: m.opacity, normal_map: false }
}

pub fn normal_texture_flags() -> (r: TextureFlags)
    ensures
        r == normal_flags(),
{
    TextureFlags { srgb: false, alpha: false, opacity: false, normal_map: true }
}

pub fn material_pack_texture_flags() -> (r: TextureFlags)
    ensures
        r == material_pack_flags(),
{
    TextureFlags { srgb: false, alpha: true, opacity: false, normal_map: false }
}

pub open spec fn texture_meta_text(template: Seq<char>, guid: Seq<char>, f: TextureFlags) -> Seq<
    char,
> {
    replaced(
        replaced(
            replaced(
                replaced(
                    replaced(template, "$$TEXTURE_GUID$$"@, guid),
                    "$$TEXTURE_SRGB$$"@,
                    flag_text(f.srgb),
                ),
                "$$TEXTURE_ALPHA$$"@,
                flag_text(f.alpha),
            ),
            "$$TEXTURE_OPACITY$$"@,
            flag_text(f.opacity),
        ),
        "$$TEXTURE_TYPE$$"@,
        flag_text(f.normal_map),
    )
}

/// Fills the texture metadata template.
pub fn render_texture_meta(template: &str, guid: &str, f: TextureFlags) -> (r: String)
    ensures
        r@ == texture_meta_text(template@, guid@, f),
{
    let s = replace_all(template, "$$TEXTURE_GUID$$", guid);
    let s = replace_all(s.as_str(), "$$TEXTURE_SRGB$$", flag(f.srgb));
    let s = replace_all(s.as_str(), "$$TEXTURE_ALPHA$$", flag(f.alpha));
    let s = replace_all(s.as_str(), "$$TEXTURE_OPACITY$$", flag(f.opacity));
    replace_all(s.as_str(), "$$TEXTURE_TYPE$$", flag(f.normal_map))
}

/// The textures of a material that get a metadata file.
#[derive(Debug, Clone, Copy, PartialEq, Eq, Structural)]
pub enum MetaTexture {
    Albedo,
    Normal,
    MaterialPack,
}

/// Albedo, normal map and packed material image, each when the material has it.
pub open spec fn metas_for(m: Manifest) -> Seq<MetaTexture> {
    (if m.albedo {
        seq![MetaTexture::Albedo]
    } else {
        seq![]
    }) + (if m.normal {
        seq![MetaTexture::Normal]
    } else {
        seq![]
    }) + (if has_material_pack(m) {
        seq![MetaTexture::MaterialPack]
    } else {
        seq![]
    })
}

/// The textures of a material that get a metadata file, in order.
pub fn meta_textures(m: &Manifest) -> (r: Vec<MetaTexture>)
    ensures
        r@ == metas_for(*m),
{
    let mut r: Vec<MetaTexture> = Vec::new();
    if m.albedo {
        r.push(MetaTexture::Albedo);
    }
    if m.normal {
        r.push(MetaTexture::Normal);
    }
    if material_pack_exists(m) {
        r.push(MetaTexture::MaterialPack);
    }
    assert(r@ =~= metas_for(*m));
    r
}

pub open spec fn meta_name(t: MetaTexture) -> Seq<char> {
    match t {
        MetaTexture::Albedo => "Albedo.png.meta"@,
        MetaTexture::Normal => "Normal.png.meta"@,
        MetaTexture::MaterialPack => "MetallicOcclusionDisplacementRoughness.png.meta"@,
    }
}

/// File name of a texture's metadata file.
pub fn meta_file_name(t: MetaTexture) -> (r: &'static str)
    ensures
        r@ == meta_name(t),
{
    match t {
        MetaTexture::Albedo => "Albedo.png.meta",
        MetaTexture::Normal => "Normal.png.meta",
        MetaTexture::MaterialPack => "MetallicOcclusionDisplacementRoughness.png.meta",
    }
}

pub open spec fn meta_flags(t: MetaTexture, m: Manifest) -> TextureFlags {
    match t {
        MetaTexture::Albedo => albedo_flags(m),
        MetaTexture::Normal => normal_flags(),
        MetaTexture::MaterialPack => material_pack_flags(),
    }
}

/// The placeholder values of a texture's metadata file.
pub fn texture_flags(t: MetaTexture, m: &Manifest) -> (r: TextureFlags)
    ensures
        r == meta_flags(t, *m),
{
    match t {
        MetaTexture::Albedo => albedo_texture_flags(m),
        MetaTexture::Normal => normal_texture_flags(),
        MetaTexture::MaterialPack => material_pack_texture_flags(),
    }
}

/// The guids of the three textures a material file refers to.
#[derive(Debug)]
pub struct TextureGuids {
    pub albedo: String,
    pub normal: String,
    pub material_pack: String,
}

pub open spec fn render_type_text(opacity: bool) -> Seq<char> {
    if opacity {
        "TransparentCutout"@
    } else {
        "Opaque"@
    }
}

pub open spec fn material_text(template: Seq<char>, m: Manifest, g: TextureGuids) -> Seq<char> {
    let s = replaced(template, "$$MATERIAL_NAME$$"@, m.name@);
    let s = replaced(s, "$$SHADER_KEYWORDS$$"@, keywords_for(m));
    let s = replaced(s, "$$RENDER_TYPE$$"@, render_type_text(m.opacity));
    let s = replaced(s, "$$COLOR_TEXTURE$$"@, reference_text(m.albedo, g.albedo@));
    let s = replaced(s, "$$NORMAL_TEXTURE$$"@, reference_text(m.normal, g.normal@));
    let s = replaced(
        s,
        "$$METALLIC_GLOSS_TEXTURE$$"@,
        reference_text(m.roughness || m.metalness, g.material_pack@),
    );
    let s = replaced(s, "$$AO_TEXTURE$$"@, reference_text(m.ambient_occlusion, g.material_pack@));
    replaced(s, "$$ALPHA_CLIP$$"@, flag_text(m.opacity))
}

/// Fills the material template of a material.
pub fn render_material(template: &str, m: &Manifest, g: &TextureGuids) -> (r: String)
    ensures
        r@ == material_text(template@, *m, *g),
{
    let s = replace_all(template, "$$MATERIAL_NAME$$", m.name.as_str());
    let k = shader_keywords(m);
    let s = replace_all(s.as_str(), "$$SHADER_KEYWORDS$$", k.as_str());
    let render_type = if m.opacity {
        "TransparentCutout"
    } else {
        "Opaque"
    };
    let s = replace_all(s.as_str(), "$$RENDER_TYPE$$", render_type);
    let t = format_filename(m.albedo, g.albedo.as_str());
    let s = replace_all(s.as_str(), "$$COLOR_TEXTURE$$", t.as_str());
    let t = format_filename(m.normal, g.normal.as_str());
    let s = replace_all(s.as_str(), "$$NORMAL_TEXTURE$$", t.as_str());
    let t = format_filename(m.roughness || m.metalness, g.material_pack.as_str());
    let s = replace_all(s.as_str(), "$$METALLIC_GLOSS_TEXTURE$$", t.as_str());
    let t = format_filename(m.ambient_occlusion, g.material_pack.as_str());
    let s = replace_all(s.as_str(), "$$AO_TEXTURE$$", t.as_str());
    replace_all(s.as_str(), "$$ALPHA_CLIP$$", flag(m.opacity))
}

pub open spec fn guid_of(g: TextureGuids, t: MetaTexture) -> Seq<char> {
    match t {
        MetaTexture::Albedo => g.albedo@,
        MetaTexture::Normal => g.normal@,
        MetaTexture::MaterialPack => g.material_pack@,
    }
}

/// The guid a texture's metadata file declares.
pub fn texture_guid(g: &TextureGuids, t: MetaTexture) -> (r: &str)
    ensures
        r@ == guid_of(*g, t),
{
    match t {
        MetaTexture::Albedo => g.albedo.as_str(),
        MetaTexture::Normal => g.normal.as_str(),
        MetaTexture::MaterialPack => g.material_pack.as_str(),
    }
}

/// File name of a material's engine material file: `<name>.mat`.
pub fn material_file_name(m: &Manifest) -> (r: String)
    ensures
        r@ == m.name@ + ".mat"@,
{
    let mut s = String::from_str(m.name.as_str());
    s.append(".mat");
    s
}

/// Whether a manifest belongs to the bundle directory it was read from: its
/// declared name must equal the directory name, byte for byte.
pub fn name_matches(m: &Manifest, dir_name: &str) -> (r: bool)
    ensures
        r == (encode_utf8(m.name@) == dir_name.spec_bytes()),
{
    bytes_equal(m.name.as_str().as_bytes(), dir_name.as_bytes())
}

} // verus!
