//! Trusted wrappers around the `image`, `fast_image_resize` and `exif`
//! crates.
//!
//! A decoded picture is carried as an opaque `image::DynamicImage`. Its
//! pixel contents — the sample layout together with the raw samples — are
//! named by `img_data`, its extents by `img_width` and `img_height`; every
//! outside operation on pixels is named as a function of those plain
//! values, so the callers' contracts can speak of the results exactly.

use vstd::prelude::*;

use fast_image_resize::FilterType;
use fast_image_resize::PixelType;
use fast_image_resize::ResizeAlg;
use fast_image_resize::ResizeOptions;
use fast_image_resize::Resizer;
use fast_image_resize::images::Image;

verus! {

#[verifier::external_type_specification]
#[verifier::external_body]
pub struct ExDynamicImage(image::DynamicImage);

/// The pixel contents of the picture: its sample layout followed by its
/// raw samples.
pub uninterp spec fn img_data(img: image::DynamicImage) -> Seq<u8>;

/// The width of the picture, in pixels.
pub uninterp spec fn img_width(img: image::DynamicImage) -> u32;

/// The height of the picture, in pixels.
pub uninterp spec fn img_height(img: image::DynamicImage) -> u32;

/// What decoding the byte stream yields: the pixel contents, width and
/// height of the picture, or nothing when no decoder accepts the bytes.
pub uninterp spec fn image_decoding(bytes: Seq<u8>) -> Option<(Seq<u8>, u32, u32)>;

/// The pixel contents mirrored left-right.
pub uninterp spec fn fliph_bytes(data: Seq<u8>, w: u32, h: u32) -> Seq<u8>;

/// The pixel contents mirrored top-bottom.
pub uninterp spec fn flipv_bytes(data: Seq<u8>, w: u32, h: u32) -> Seq<u8>;

/// The pixel contents rotated a quarter turn clockwise.
pub uninterp spec fn rotate90_bytes(data: Seq<u8>, w: u32, h: u32) -> Seq<u8>;

/// The pixel contents rotated a half turn.
pub uninterp spec fn rotate180_bytes(data: Seq<u8>, w: u32, h: u32) -> Seq<u8>;

/// The pixel contents rotated three quarter turns clockwise.
pub uninterp spec fn rotate270_bytes(data: Seq<u8>, w: u32, h: u32) -> Seq<u8>;

/// What downscaling the picture to the target extents with a Lanczos3
/// convolution over its 8-bit RGB rendering yields: the resized pixel
/// contents, or nothing when the resizer refuses the picture. The
/// operation is deterministic, so success is a function of the arguments.
pub uninterp spec fn lanczos3_resized(
    data: Seq<u8>,
    w: u32,
    h: u32,
    target_w: u32,
    target_h: u32,
) -> Option<Seq<u8>>;

/// What JPEG-encoding the picture at the given quality yields: the
/// encoded bytes, or nothing when the encoder refuses the picture (an
/// axis beyond what JPEG can carry). Deterministic in the arguments.
pub uninterp spec fn jpeg_encoded(data: Seq<u8>, w: u32, h: u32, quality: u8) -> Option<Seq<u8>>;

/// What PNG-encoding the picture yields: the encoded bytes, or nothing
/// when the encoder refuses the picture. PNG is lossless and takes no
/// quality. Deterministic in the arguments.
pub uninterp spec fn png_encoded(data: Seq<u8>, w: u32, h: u32) -> Option<Seq<u8>>;

/// What lossless-WebP-encoding the picture yields: the encoded bytes, or
/// nothing when the encoder refuses the picture; this encoder is
/// lossless-only, so it takes no quality either. Deterministic in the
/// arguments.
pub uninterp spec fn webp_lossless_encoded(data: Seq<u8>, w: u32, h: u32) -> Option<Seq<u8>>;

/// The EXIF orientation code carried by the byte stream, or nothing when
/// no well-formed EXIF container with an orientation tag is found.
pub uninterp spec fn exif_orientation_code(bytes: Seq<u8>) -> Option<u16>;

/// Relies on `image::ImageReader`: sniffs the container format from the
/// bytes and decodes them; deterministic in the bytes alone.
#[verifier::external_body]
pub(crate) fn decode_bytes(input: &[u8]) -> (r: Result<image::DynamicImage, ()>)
    ensures
        r is Ok <==> image_decoding(input@) is Some,
        r matches Ok(img) ==> image_decoding(input@) == Some(
            (img_data(img), img_width(img), img_height(img)),
        ),
{
    let reader = match image::ImageReader::new(std::io::Cursor::new(input)).with_guessed_format() {
        Ok(r) => r,
        Err(_) => return Err(()),
    };
    match reader.decode() {
        Ok(img) => Ok(img),
        Err(_) => Err(()),
    }
}

/// Relies on `image::DynamicImage::width`.
#[verifier::external_body]
pub(crate) fn dyn_width(img: &image::DynamicImage) -> (w: u32)
    ensures
        w == img_width(*img),
{
    img.width()
}

/// Relies on `image::DynamicImage::height`.
#[verifier::external_body]
pub(crate) fn dyn_height(img: &image::DynamicImage) -> (h: u32)
    ensures
        h == img_height(*img),
{
    img.height()
}

/// Relies on `image::DynamicImage::fliph`: mirrors left-right, keeping
/// the extents.
#[verifier::external_body]
pub(crate) fn flip_horizontal(img: &image::DynamicImage) -> (r: image::DynamicImage)
    ensures
        img_width(r) == img_width(*img),
        img_height(r) == img_height(*img),
        img_data(r) == fliph_bytes(img_data(*img), img_width(*img), img_height(*img)),
{
    img.fliph()
}

/// Relies on `image::DynamicImage::flipv`: mirrors top-bottom, keeping
/// the extents.
#[verifier::external_body]
pub(crate) fn flip_vertical(img: &image::DynamicImage) -> (r: image::DynamicImage)
    ensures
        img_width(r) == img_width(*img),
        img_height(r) == img_height(*img),
        img_data(r) == flipv_bytes(img_data(*img), img_width(*img), img_height(*img)),
{
    img.flipv()
}

/// Relies on `image::DynamicImage::rotate90`: a quarter turn clockwise,
/// swapping the extents.
#[verifier::external_body]
pub(crate) fn rotate_90(img: &image::DynamicImage) -> (r: image::DynamicImage)
    ensures
        img_width(r) == img_height(*img),
        img_height(r) == img_width(*img),
        img_data(r) == rotate90_bytes(img_data(*img), img_width(*img), img_height(*img)),
{
    img.rotate90()
}

/// Relies on `image::DynamicImage::rotate180`: a half turn, keeping the
/// extents.
#[verifier::external_body]
pub(crate) fn rotate_180(img: &image::DynamicImage) -> (r: image::DynamicImage)
    ensures
        img_width(r) == img_width(*img),
        img_height(r) == img_height(*img),
        img_data(r) == rotate180_bytes(img_data(*img), img_width(*img), img_height(*img)),
{
    img.rotate180()
}

/// Relies on `image::DynamicImage::rotate270`: three quarter turns
/// clockwise, swapping the extents.
#[verifier::external_body]
pub(crate) fn rotate_270(img: &image::DynamicImage) -> (r: image::DynamicImage)
    ensures
        img_width(r) == img_height(*img),
        img_height(r) == img_width(*img),
        img_data(r) == rotate270_bytes(img_data(*img), img_width(*img), img_height(*img)),
{
    img.rotate270()
}

/// Relies on `fast_image_resize::Resizer::resize` with a Lanczos3
/// convolution filter over the 8-bit RGB rendering of the picture; every
/// step is deterministic in the pixel contents and the extents, so
/// whether the resize succeeds is too; on success the result has exactly
/// the target extents.
#[verifier::external_body]
pub(crate) fn resize_pixels(
    img: &image::DynamicImage,
    target_w: u32,
    target_h: u32,
) -> (r: Result<image::DynamicImage, ()>)
    requires
        1 <= target_w,
        1 <= target_h,
    ensures
        r is Ok <==> lanczos3_resized(
            img_data(*img),
            img_width(*img),
            img_height(*img),
            target_w,
            target_h,
        ) is Some,
        r matches Ok(out) ==> img_width(out) == target_w && img_height(out) == target_h
            && Some(img_data(out)) == lanczos3_resized(
            img_data(*img),
            img_width(*img),
            img_height(*img),
            target_w,
            target_h,
        ),
{
    let rgb = img.to_rgb8();
    let (w, h) = (rgb.width(), rgb.height());
    let src = Image::from_vec_u8(w, h, rgb.into_raw(), PixelType::U8x3).map_err(|_| ())?;
    let mut dst = Image::new(target_w, target_h, PixelType::U8x3);
    let mut resizer = Resizer::new();
    let options = ResizeOptions::new().resize_alg(ResizeAlg::Convolution(FilterType::Lanczos3));
    if resizer.resize(&src, &mut dst, &options).is_err() {
        return Err(());
    }
    match image::RgbImage::from_raw(target_w, target_h, dst.into_vec()) {
        Some(out) => Ok(image::DynamicImage::ImageRgb8(out)),
        None => Err(()),
    }
}

/// Relies on `image::codecs::jpeg::JpegEncoder`: encodes the 8-bit RGB
/// rendering at the given quality, deterministically, failing only on
/// extents JPEG cannot carry; a JPEG stream opens with the marker
/// `FF D8`.
#[verifier::external_body]
pub(crate) fn encode_jpeg_bytes(img: &image::DynamicImage, quality: u8) -> (r: Result<
    Vec<u8>,
    (),
>)
    requires
        1 <= quality <= 100,
    ensures
        r is Ok <==> jpeg_encoded(img_data(*img), img_width(*img), img_height(*img), quality)
            is Some,
        r matches Ok(b) ==> Some(b@) == jpeg_encoded(
            img_data(*img),
            img_width(*img),
            img_height(*img),
            quality,
        ),
        r matches Ok(b) ==> b@.len() >= 2 && b@[0] == 0xffu8 && b@[1] == 0xd8u8,
{
    let mut buf = std::io::Cursor::new(Vec::new());
    let encoder = image::codecs::jpeg::JpegEncoder::new_with_quality(&mut buf, quality);
    match img.to_rgb8().write_with_encoder(encoder) {
        Ok(()) => Ok(buf.into_inner()),
        Err(_) => Err(()),
    }
}

/// Relies on `image::DynamicImage::write_to` with the PNG format: a
/// lossless, deterministic encoding that opens with the eight-byte PNG
/// signature.
#[verifier::external_body]
pub(crate) fn encode_png_bytes(img: &image::DynamicImage) -> (r: Result<Vec<u8>, ()>)
    ensures
        r is Ok <==> png_encoded(img_data(*img), img_width(*img), img_height(*img)) is Some,
        r matches Ok(b) ==> Some(b@) == png_encoded(
            img_data(*img),
            img_width(*img),
            img_height(*img),
        ),
        r matches Ok(b) ==> b@.len() >= 8 && b@[0] == 0x89u8 && b@[1] == 0x50u8 && b@[2] == 0x4eu8
            && b@[3] == 0x47u8 && b@[4] == 0x0du8 && b@[5] == 0x0au8 && b@[6] == 0x1au8 && b@[7]
            == 0x0au8,
{
    let mut buf = std::io::Cursor::new(Vec::new());
    match img.write_to(&mut buf, image::ImageFormat::Png) {
        Ok(()) => Ok(buf.into_inner()),
        Err(_) => Err(()),
    }
}

/// Relies on `image::codecs::webp::WebPEncoder::new_lossless`: this
/// encoder is lossless-only, deterministic, and takes no quality; the
/// stream opens with a RIFF container header.
#[verifier::external_body]
pub(crate) fn encode_webp_bytes(img: &image::DynamicImage) -> (r: Result<Vec<u8>, ()>)
    ensures
        r is Ok <==> webp_lossless_encoded(img_data(*img), img_width(*img), img_height(*img))
            is Some,
        r matches Ok(b) ==> Some(b@) == webp_lossless_encoded(
            img_data(*img),
            img_width(*img),
            img_height(*img),
        ),
        r matches Ok(b) ==> b@.len() >= 4 && b@[0] == 0x52u8 && b@[1] == 0x49u8 && b@[2] == 0x46u8
            && b@[3] == 0x46u8,
{
    let mut buf = std::io::Cursor::new(Vec::new());
    let encoder = image::codecs::webp::WebPEncoder::new_lossless(&mut buf);
    match img.write_with_encoder(encoder) {
        Ok(()) => Ok(buf.into_inner()),
        Err(_) => Err(()),
    }
}

/// Relies on `image::codecs::avif::AvifEncoder`: encodes at the given
/// quality with a fixed speed setting. The encoder may parallelize, so
/// its exact output is not named; what holds of every successful outcome
/// is that the stream is an ISO-BMFF file opening with a box whose
/// four-byte size is followed by `ftyp`.
#[verifier::external_body]
pub(crate) fn encode_avif_bytes(img: &image::DynamicImage, quality: u8) -> (r: Result<
    Vec<u8>,
    (),
>)
    requires
        1 <= quality <= 100,
    ensures
        r matches Ok(b) ==> b@.len() >= 8 && b@[4] == 0x66u8 && b@[5] == 0x74u8 && b@[6] == 0x79u8
            && b@[7] == 0x70u8,
{
    let mut buf = std::io::Cursor::new(Vec::new());
    let encoder = image::codecs::avif::AvifEncoder::new_with_speed_quality(&mut buf, 4, quality);
    match img.write_with_encoder(encoder) {
        Ok(()) => Ok(buf.into_inner()),
        Err(_) => Err(()),
    }
}

/// Relies on `exif::Reader::read_from_container` and `Value::get_uint`:
/// reads the orientation tag of the primary image, if one is present;
/// deterministic in the bytes alone.
#[verifier::external_body]
pub(crate) fn read_exif_code(data: &[u8]) -> (r: Option<u16>)
    ensures
        r == exif_orientation_code(data@),
{
    let mut cursor = std::io::Cursor::new(data);
    let parsed = exif::Reader::new().read_from_container(&mut cursor).ok()?;
    let field = parsed.get_field(exif::Tag::Orientation, exif::In::PRIMARY)?;
    let value = field.value.get_uint(0)?;
    Some(value as u16)
}

} // verus!
