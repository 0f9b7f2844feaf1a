use vstd::prelude::*;

use image::GenericImageView;
use std::io::Read;
use vstd::utf8::encode_utf8;

use crate::error::ApplicationError;

verus! {

#[verifier::external_type_specification]
#[verifier::external_body]
#[verifier::reject_recursive_types(T)]
pub struct ExCursor<T>(std::io::Cursor<T>);

#[verifier::external_type_specification]
#[verifier::external_body]
#[verifier::reject_recursive_types(R)]
pub struct ExZipArchive<R>(zip::ZipArchive<R>);

/// A zip archive read from memory.
pub type Archive = zip::ZipArchive<std::io::Cursor<Vec<u8>>>;

/// The pixel layout of a decoded image: how many channels a pixel has and
/// how many bytes it takes.
#[derive(Debug, Clone, Copy, PartialEq, Eq, Structural)]
pub struct PixelLayout {
    pub channels: u8,
    pub bytes_per_pixel: u8,
}

/// A decoded image handed out as plain values.
#[derive(Debug)]
pub struct DecodedImage {
    pub layout: PixelLayout,
    pub width: u32,
    pub height: u32,
    pub pixels: Vec<u8>,
}

/// The bytes an archive was read from.
pub uninterp spec fn archive_bytes(a: Archive) -> Seq<u8>;

/// Whether `ZipArchive::new` accepts these bytes.
pub uninterp spec fn zip_opens(bytes: Seq<u8>) -> bool;

/// The entry names that the central directory of a zip file lists, as UTF-8
/// bytes, in order.
pub uninterp spec fn zip_entry_names(bytes: Seq<u8>) -> Seq<Seq<u8>>;

/// Whether the local header of entry `i` can be located.
pub uninterp spec fn zip_entry_located(bytes: Seq<u8>, i: nat) -> bool;

/// The decompressed contents of entry `i`, when it can be read.
pub uninterp spec fn zip_entry_data(bytes: Seq<u8>, i: nat) -> Option<Seq<u8>>;

/// Whether `image::load_from_memory` decodes these bytes.
pub uninterp spec fn image_decodes(data: Seq<u8>) -> bool;

/// The pixel layout of the image these bytes decode to.
pub uninterp spec fn image_layout(data: Seq<u8>) -> PixelLayout;

/// The decoded image resampled (Lanczos3) to `width` by `height`, as RGB bytes.
pub uninterp spec fn rgb8_resampled(data: Seq<u8>, width: u32, height: u32) -> Seq<u8>;

/// The decoded image resampled (Lanczos3) to `width` by `height`, as luminance bytes.
pub uninterp spec fn luma8_resampled(data: Seq<u8>, width: u32, height: u32) -> Seq<u8>;

/// The PNG file that encodes `pixels` (RGB, or RGBA when `alpha` holds) of the
/// given size.
pub uninterp spec fn png_of(pixels: Seq<u8>, width: u32, height: u32, alpha: bool) -> Seq<u8>;

/// The layout, width, height and raw pixels of a PNG file, when it decodes.
pub uninterp spec fn png_image(data: Seq<u8>) -> Option<(PixelLayout, u32, u32, Seq<u8>)>;

/// Relies on `zip::ZipArchive::new`: reads the central directory of an
/// archive held in memory.
#[verifier::external_body]
pub(crate) fn open_archive(bytes: Vec<u8>) -> (r: Result<Archive, zip::result::ZipError>)
    ensures
        r is Ok <==> zip_opens(bytes@),
        r matches Ok(a) ==> archive_bytes(a) == bytes@,
{
    zip::ZipArchive::new(std::io::Cursor::new(bytes))
}

/// Relies on `zip::ZipArchive::len`: the number of entries.
#[verifier::external_body]
pub(crate) fn archive_len(a: &Archive) -> (r: usize)
    ensures
        r == zip_entry_names(archive_bytes(*a)).len(),
{
    a.len()
}

/// Relies on `zip::ZipArchive::by_index_raw` and `ZipFile::name`: the name of
/// entry `i`, without decompressing it, once its local header is located.
#[verifier::external_body]
pub(crate) fn entry_name(a: &mut Archive, i: usize) -> (r: Result<String, zip::result::ZipError>)
    requires
        i < zip_entry_names(archive_bytes(*old(a))).len(),
    ensures
        archive_bytes(*final(a)) == archive_bytes(*old(a)),
        r is Ok <==> zip_entry_located(archive_bytes(*old(a)), i as nat),
        r matches Ok(n) ==> encode_utf8(n@) == zip_entry_names(archive_bytes(*old(a)))[i as int],
{
    Ok(a.by_index_raw(i)?.name().to_string())
}

/// Relies on `zip::ZipArchive::by_index` and reading the returned entry to
/// its end: the decompressed contents of entry `i`.
#[verifier::external_body]
pub(crate) fn entry_contents(a: &mut Archive, i: usize) -> (r: Result<Vec<u8>, ApplicationError>)
    ensures
        archive_bytes(*final(a)) == archive_bytes(*old(a)),
        r is Ok <==> zip_entry_data(archive_bytes(*old(a)), i as nat) is Some,
        r matches Err(e) ==> (e is Zip || e is Io),
        r matches Ok(d) ==> zip_entry_data(archive_bytes(*old(a)), i as nat) == Some(d@),
{
    let mut file = a.by_index(i).map_err(ApplicationError::Zip)?;
    let mut data = Vec::new();
    file.read_to_end(&mut data).map_err(ApplicationError::Io)?;
    Ok(data)
}

/// Relies on `image::load_from_memory` and `DynamicImage::color`: the layout
/// (`channel_count`, `bytes_per_pixel`) of the decoded image.
#[verifier::external_body]
pub(crate) fn decoded_layout(data: &[u8]) -> (r: Result<PixelLayout, image::ImageError>)
    ensures
        r is Ok <==> image_decodes(data@),
        r matches Ok(l) ==> l == image_layout(data@),
{
    let c = image::load_from_memory(data)?.color();
    Ok(PixelLayout { channels: c.channel_count(), bytes_per_pixel: c.bytes_per_pixel() })
}

/// Relies on `image::load_from_memory`, then `DynamicImage::resize_exact`
/// with the Lanczos3 filter, whose result has exactly the requested size; the
/// pixels are handed out as RGB bytes (`into_rgb8`, `into_raw`).
#[verifier::external_body]
pub(crate) fn decode_resampled_rgb8(data: &[u8], width: u32, height: u32) -> (r: Result<Vec<u8>, image::ImageError>)
    requires
        4 * width * height <= usize::MAX,
    ensures
        r is Ok <==> image_decodes(data@),
        r matches Ok(v) ==> (v@ == rgb8_resampled(data@, width, height) && v@.len() == 3 * width
            * height),
{
    let img = image::load_from_memory(data)?;
    Ok(img.resize_exact(width, height, image::imageops::FilterType::Lanczos3).into_rgb8().into_raw())
}

/// Relies on `image::load_from_memory`, then `DynamicImage::resize_exact`
/// with the Lanczos3 filter, whose result has exactly the requested size; the
/// pixels are handed out as luminance bytes (`into_luma8`, `into_raw`).
#[verifier::external_body]
pub(crate) fn decode_resampled_luma8(data: &[u8], width: u32, height: u32) -> (r: Result<Vec<u8>, image::ImageError>)
    requires
        4 * width * height <= usize::MAX,
    ensures
        r is Ok <==> image_decodes(data@),
        r matches Ok(v) ==> (v@ == luma8_resampled(data@, width, height) && v@.len() == width
            * height),
{
    let img = image::load_from_memory(data)?;
    Ok(img.resize_exact(width, height, image::imageops::FilterType::Lanczos3).into_luma8().into_raw())
}

/// Relies on `image::codecs::png::PngEncoder::encode`: the PNG encoding of
/// 8-bit RGB or RGBA pixels, which depends on its arguments alone and fails
/// only on a zero width or height.
#[verifier::external_body]
pub(crate) fn encode_png(pixels: &[u8], width: u32, height: u32, alpha: bool) -> (r: Result<Vec<u8>, image::ImageError>)
    requires
        alpha ==> pixels@.len() == 4 * width * height,
        !alpha ==> pixels@.len() == 3 * width * height,
    ensures
        r is Ok <==> (width > 0 && height > 0),
        r matches Ok(b) ==> b@ == png_of(pixels@, width, height, alpha),
{
    let mut out = Vec::new();
    let color = if alpha { image::ColorType::Rgba8 } else { image::ColorType::Rgb8 };
    image::codecs::png::PngEncoder::new(&mut out).encode(pixels, width, height, color)?;
    Ok(out)
}

/// Relies on `image::load_from_memory_with_format` with the PNG format; the
/// image is handed out through `color` (`channel_count`, `bytes_per_pixel`),
/// `dimensions` and `as_bytes`.
#[verifier::external_body]
pub(crate) fn decode_png_image(data: &[u8]) -> (r: Result<DecodedImage, image::ImageError>)
    ensures
        r is Ok <==> png_image(data@) is Some,
        r matches Ok(d) ==> png_image(data@) == Some((d.layout, d.width, d.height, d.pixels@)),
{
    let img = image::load_from_memory_with_format(data, image::ImageFormat::Png)?;
    let c = img.color();
    let layout = PixelLayout { channels: c.channel_count(), bytes_per_pixel: c.bytes_per_pixel() };
    let (width, height) = img.dimensions();
    Ok(DecodedImage { layout, width, height, pixels: img.as_bytes().to_vec() })
}

} // verus!
