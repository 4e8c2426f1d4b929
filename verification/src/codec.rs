//! Decoding, resizing and encoding of pixel buffers.

use vstd::prelude::*;

use crate::constants::MAX_PIXELS;
use crate::errors::ProcessingStage;
use crate::errors::TransformError;
use crate::image_ops::decode_bytes;
use crate::image_ops::encode_avif_bytes;
use crate::image_ops::encode_jpeg_bytes;
use crate::image_ops::encode_png_bytes;
use crate::image_ops::encode_webp_bytes;
use crate::image_ops::image_decoding;
use crate::image_ops::img_data;
use crate::image_ops::img_height;
use crate::image_ops::img_width;
use crate::image_ops::jpeg_encoded;
use crate::image_ops::lanczos3_resized;
use crate::image_ops::png_encoded;
use crate::image_ops::resize_pixels;
use crate::image_ops::webp_lossless_encoded;
use crate::params::OutputFormat;

verus! {

/// Decodes a raw byte stream into a pixel buffer, sniffing the container
/// format from the content. Unrecognized or corrupt bitstreams fail with
/// a decode-stage processing error.
pub fn decode_image(input: &[u8]) -> (r: Result<image::DynamicImage, TransformError>)
    ensures
        r is Ok <==> image_decoding(input@) is Some,
        r matches Ok(img) ==> image_decoding(input@) == Some(
            (img_data(img), img_width(img), img_height(img)),
        ),
        r is Err ==> r == Err::<image::DynamicImage, TransformError>(
            TransformError::ProcessingFailed(ProcessingStage::Decode),
        ),
{
    match decode_bytes(input) {
        Ok(img) => Ok(img),
        Err(()) => Err(TransformError::ProcessingFailed(ProcessingStage::Decode)),
    }
}

/// Downscales the picture to the target extents with a Lanczos3
/// convolution filter. The target pixel count is re-checked against
/// `MAX_PIXELS` defensively; on success the result has exactly the
/// target extents.
pub fn resize_image(img: &image::DynamicImage, target_w: u32, target_h: u32) -> (r: Result<
    image::DynamicImage,
    TransformError,
>)
    requires
        1 <= target_w,
        1 <= target_h,
    ensures
        target_w as u64 * target_h as u64 > MAX_PIXELS ==> r == Err::<
            image::DynamicImage,
            TransformError,
        >(TransformError::ResolutionTooLarge { width: target_w, height: target_h }),
        target_w as u64 * target_h as u64 <= MAX_PIXELS ==> (r is Ok <==> lanczos3_resized(
            img_data(*img),
            img_width(*img),
            img_height(*img),
            target_w,
            target_h,
        ) is Some),
        r matches Ok(out) ==> target_w as u64 * target_h as u64 <= MAX_PIXELS && img_width(out)
            == target_w && img_height(out) == target_h && Some(img_data(out)) == lanczos3_resized(
            img_data(*img),
            img_width(*img),
            img_height(*img),
            target_w,
            target_h,
        ),
        r is Err && target_w as u64 * target_h as u64 <= MAX_PIXELS ==> r == Err::<
            image::DynamicImage,
            TransformError,
        >(TransformError::ProcessingFailed(ProcessingStage::Resize)),
{
    proof {
        crate::dimensions::lemma_u32_mul_fits(target_w as int, target_h as int);
    }
    let total_pixels = (target_w as u64) * (target_h as u64);
    if total_pixels > MAX_PIXELS {
        return Err(TransformError::ResolutionTooLarge { width: target_w, height: target_h });
    }
    match resize_pixels(img, target_w, target_h) {
        Ok(out) => Ok(out),
        Err(()) => Err(TransformError::ProcessingFailed(ProcessingStage::Resize)),
    }
}

/// The encoded bytes a successful encode must return, per format. Nothing
/// is pinned for AVIF: its encoder's exact output is not named.
pub open spec fn spec_encoded_ok(
    format: OutputFormat,
    b: Seq<u8>,
    data: Seq<u8>,
    w: u32,
    h: u32,
    quality: u8,
) -> bool {
    match format {
        OutputFormat::Jpeg => Some(b) == jpeg_encoded(data, w, h, quality),
        OutputFormat::Png => Some(b) == png_encoded(data, w, h),
        OutputFormat::WebP => Some(b) == webp_lossless_encoded(data, w, h),
        OutputFormat::Avif => true,
    }
}

/// Whether the named, deterministic encoder of the format accepts the
/// picture. AVIF's encoder is not named, so this says nothing of it.
pub open spec fn spec_encode_succeeds(
    format: OutputFormat,
    data: Seq<u8>,
    w: u32,
    h: u32,
    quality: u8,
) -> bool {
    match format {
        OutputFormat::Jpeg => jpeg_encoded(data, w, h, quality) is Some,
        OutputFormat::Png => png_encoded(data, w, h) is Some,
        OutputFormat::WebP => webp_lossless_encoded(data, w, h) is Some,
        OutputFormat::Avif => true,
    }
}

/// The fixed opening bytes of each format's stream: the JPEG `FF D8`
/// marker, the eight-byte PNG signature, WebP's RIFF container header,
/// and for AVIF a box size followed by `ftyp`.
pub open spec fn spec_format_header_ok(format: OutputFormat, b: Seq<u8>) -> bool {
    match format {
        OutputFormat::Jpeg => b.len() >= 2 && b[0] == 0xffu8 && b[1] == 0xd8u8,
        OutputFormat::Png => b.len() >= 8 && b[0] == 0x89u8 && b[1] == 0x50u8 && b[2] == 0x4eu8
            && b[3] == 0x47u8 && b[4] == 0x0du8 && b[5] == 0x0au8 && b[6] == 0x1au8 && b[7]
            == 0x0au8,
        OutputFormat::WebP => b.len() >= 4 && b[0] == 0x52u8 && b[1] == 0x49u8 && b[2] == 0x46u8
            && b[3] == 0x46u8,
        OutputFormat::Avif => b.len() >= 8 && b[4] == 0x66u8 && b[5] == 0x74u8 && b[6] == 0x79u8
            && b[7] == 0x70u8,
    }
}

/// Serializes the pixel buffer to the requested codec. Quality applies to
/// the lossy JPEG and AVIF paths; PNG is lossless and the WebP encoder
/// here is lossless-only, so both ignore it. Codec-level failures come
/// back as an encode-stage processing error.
pub fn encode_image(img: &image::DynamicImage, format: OutputFormat, quality: u8) -> (r: Result<
    Vec<u8>,
    TransformError,
>)
    requires
        1 <= quality <= 100,
    ensures
        format != OutputFormat::Avif ==> (r is Ok <==> spec_encode_succeeds(
            format,
            img_data(*img),
            img_width(*img),
            img_height(*img),
            quality,
        )),
        r matches Ok(b) ==> spec_encoded_ok(
            format,
            b@,
            img_data(*img),
            img_width(*img),
            img_height(*img),
            quality,
        ),
        r matches Ok(b) ==> spec_format_header_ok(format, b@),
        r is Err ==> r == Err::<Vec<u8>, TransformError>(
            TransformError::ProcessingFailed(ProcessingStage::Encode),
        ),
{
    let encoded = match format {
        OutputFormat::Jpeg => encode_jpeg_bytes(img, quality),
        OutputFormat::Png => encode_png_bytes(img),
        OutputFormat::WebP => encode_webp_bytes(img),
        OutputFormat::Avif => encode_avif_bytes(img, quality),
    };
    match encoded {
        Ok(bytes) => Ok(bytes),
        Err(()) => Err(TransformError::ProcessingFailed(ProcessingStage::Encode)),
    }
}

} // verus!
