use vstd::prelude::*;

use crate::codec::{decode_png_image, png_image, PixelLayout};
use crate::error::ApplicationError;

verus! {

/// The canonical images of a bundle.
#[derive(Debug, Clone, Copy, PartialEq, Eq, Structural)]
pub enum TextureRole {
    Albedo,
    Normal,
    MaterialPack,
}

/// The colour space a compressed texture is tagged with.
#[derive(Debug, Clone, Copy, PartialEq, Eq, Structural)]
pub enum ColorSpace {
    Srgb,
    Linear,
}

/// How one canonical image is handed to the block compressor.
#[derive(Debug, Clone, Copy, PartialEq, Eq, Structural)]
pub struct CompressionSettings {
    pub color_space: ColorSpace,
    pub tune_for_normal_maps: bool,
    pub channels: u32,
}

/// A decoded canonical image, ready for compression.
#[derive(Debug)]
pub struct Texture {
    pub width: u32,
    pub height: u32,
    pub pixels: Vec<u8>,
    pub settings: CompressionSettings,
}

pub open spec fn rgb8() -> PixelLayout {
    PixelLayout { channels: 3, bytes_per_pixel: 3 }
}

pub open spec fn rgba8() -> PixelLayout {
    PixelLayout { channels: 4, bytes_per_pixel: 4 }
}

/// The layout a canonical image must have: albedo is 8-bit RGBA exactly when
/// the manifest declares opacity and 8-bit RGB otherwise, the normal map is
/// 8-bit RGB, the packed material image is 8-bit RGBA.
pub open spec fn expected_layout(role: TextureRole, has_opacity: bool) -> PixelLayout {
    match role {
        TextureRole::Albedo => if has_opacity {
            rgba8()
        } else {
            rgb8()
        },
        TextureRole::Normal => rgb8(),
        TextureRole::MaterialPack => rgba8(),
    }
}

/// Albedo is perceptual; the normal map and the packed material image are
/// linear, and the normal map asks for the compressor's normal-map tuning.
pub open spec fn settings_for(role: TextureRole, has_opacity: bool) -> CompressionSettings {
    CompressionSettings {
        color_space: match role {
            TextureRole::Albedo => ColorSpace::Srgb,
            _ => ColorSpace::Linear,
        },
        tune_for_normal_maps: role == TextureRole::Normal,
        channels: expected_layout(role, has_opacity).channels as u32,
    }
}

pub open spec fn source_name(role: TextureRole) -> Seq<char> {
    match role {
        TextureRole::Albedo => "Albedo.png"@,
        TextureRole::Normal => "Normal.png"@,
        TextureRole::MaterialPack => "MetallicOcclusionDisplacementRoughness.png"@,
    }
}

pub open spec fn compressed_name(role: TextureRole) -> Seq<char> {
    match role {
        TextureRole::Albedo => "Albedo.basisu"@,
        TextureRole::Normal => "Normal.basisu"@,
        TextureRole::MaterialPack => "MetallicOcclusionDisplacementRoughness.basisu"@,
    }
}

/// File name of a canonical image inside a pack bundle.
pub fn source_file_name(role: TextureRole) -> (r: &'static str)
    ensures
        r@ == source_name(role),
{
    match role {
        TextureRole::Albedo => "Albedo.png",
        TextureRole::Normal => "Normal.png",
        TextureRole::MaterialPack => "MetallicOcclusionDisplacementRoughness.png",
    }
}

/// File name of the compressed texture that replaces a canonical image.
pub fn compressed_file_name(role: TextureRole) -> (r: &'static str)
    ensures
        r@ == compressed_name(role),
{
    match role {
        TextureRole::Albedo => "Albedo.basisu",
        TextureRole::Normal => "Normal.basisu",
        TextureRole::MaterialPack => "MetallicOcclusionDisplacementRoughness.basisu",
    }
}

/// The layout a canonical image must have.
pub fn required_layout(role: TextureRole, has_opacity: bool) -> (r: PixelLayout)
    ensures
        r == expected_layout(role, has_opacity),
{
    let rgb = PixelLayout { channels: 3, bytes_per_pixel: 3 };
    let rgba = PixelLayout { channels: 4, bytes_per_pixel: 4 };
    match role {
        TextureRole::Albedo => if has_opacity {
            rgba
        } else {
            rgb
        },
        TextureRole::Normal => rgb,
        TextureRole::MaterialPack => rgba,
    }
}

/// The compressor settings of a canonical image.
pub fn compression_settings(role: TextureRole, has_opacity: bool) -> (r: CompressionSettings)
    ensures
        r == settings_for(role, has_opacity),
{
    let layout = required_layout(role, has_opacity);
    CompressionSettings {
        color_space: match role {
            TextureRole::Albedo => ColorSpace::Srgb,
            _ => ColorSpace::Linear,
        },
        tune_for_normal_maps: match role {
            TextureRole::Normal => true,
            _ => false,
        },
        channels: layout.channels as u32,
    }
}

/// Validates the decoded layout of the image at `path` against its role and
/// the manifest's opacity flag. A mismatch is an invalid image naming `path`.
pub fn check_layout(role: TextureRole, has_opacity: bool, actual: PixelLayout, path: &str) -> (r:
    Result<CompressionSettings, ApplicationError>)
    ensures
        actual == expected_layout(role, has_opacity) ==> r == Ok::<
            CompressionSettings,
            ApplicationError,
        >(settings_for(role, has_opacity)),
        actual != expected_layout(role, has_opacity) ==> (match r {
            Err(ApplicationError::InvalidImage(p)) => p@ == path@,
            _ => false,
        }),
{
    let expected = required_layout(role, has_opacity);
    if actual == expected {
        Ok(compression_settings(role, has_opacity))
    } else {
        Err(ApplicationError::InvalidImage(String::from_str(path)))
    }
}

/// Decodes the canonical image `png` read from `path`, checks its layout and
/// returns its pixels with the settings to compress them with. A PNG that
/// does not decode is an image error; a layout that does not fit the role is
/// an invalid image naming `path`.
pub fn prepare_texture(role: TextureRole, has_opacity: bool, png: &[u8], path: &str) -> (r: Result<
    Texture,
    ApplicationError,
>)
    ensures
        r is Ok <==> (png_image(png@) matches Some(d) && d.0 == expected_layout(role, has_opacity)),
        (r matches Err(ApplicationError::InvalidImage(_))) <==> (png_image(png@) matches Some(d)
            && d.0 != expected_layout(role, has_opacity)),
        r matches Err(ApplicationError::InvalidImage(p)) ==> p@ == path@,
        r matches Err(e) ==> (e is InvalidImage || e is Image),
        r matches Ok(t) ==> png_image(png@) == Some((expected_layout(role, has_opacity), t.width, t.height, t.pixels@))
            && t.settings == settings_for(role, has_opacity),
{
    let img = match decode_png_image(png) {
        Ok(img) => img,
        Err(e) => {
            return Err(ApplicationError::Image(e));
        },
    };
    let settings = check_layout(role, has_opacity, img.layout, path)?;
    Ok(Texture { width: img.width, height: img.height, pixels: img.pixels, settings })
}

} // verus!
