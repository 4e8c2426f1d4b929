//! The pipeline orchestrator: validate, decode, guard, orient, plan,
//! resize, encode.
//!
//! The full decode-and-encode sequence runs even when no resize is
//! requested: re-encoding from a clean pixel buffer is what strips EXIF
//! and other metadata.

use vstd::prelude::*;

use crate::codec::decode_image;
use crate::codec::encode_image;
use crate::codec::resize_image;
use crate::codec::spec_encode_succeeds;
use crate::codec::spec_encoded_ok;
use crate::codec::spec_format_header_ok;
use crate::constants::MAX_DIMENSION;
use crate::constants::MAX_PIXELS;
use crate::dimensions::calculate_contain_dimensions;
use crate::dimensions::lemma_plan_never_enlarges;
use crate::dimensions::lemma_u32_mul_fits;
use crate::dimensions::plan_dims;
use crate::errors::ParamField;
use crate::errors::ProcessingStage;
use crate::errors::TransformError;
use crate::image_ops::dyn_height;
use crate::image_ops::dyn_width;
use crate::image_ops::image_decoding;
use crate::image_ops::lanczos3_resized;
use crate::orientation::apply_orientation;
use crate::orientation::oriented_data;
use crate::orientation::oriented_height;
use crate::orientation::oriented_width;
use crate::orientation::read_orientation;
use crate::orientation::spec_read_orientation;
use crate::orientation::Orientation;
use crate::params::OutputFormat;
use crate::params::TransformParams;
use crate::validation::dimension_param_ok;
use crate::validation::quality_in_range;
use crate::validation::validate_params;

verus! {

/// Rejects a source whose total pixel count exceeds `MAX_PIXELS`; this
/// guards against decompression-bomb inputs right after decode, before
/// any further pixel work.
pub fn validate_source_dimensions(width: u32, height: u32) -> (r: Result<(), TransformError>)
    ensures
        r is Ok <==> width as int * height as int <= MAX_PIXELS as int,
        r is Err ==> r == Err::<(), TransformError>(
            TransformError::ResolutionTooLarge { width, height },
        ),
{
    proof {
        lemma_u32_mul_fits(width as int, height as int);
    }
    let total_pixels = (width as u64) * (height as u64);
    if total_pixels > MAX_PIXELS {
        Err(TransformError::ResolutionTooLarge { width, height })
    } else {
        Ok(())
    }
}

/// Rejects a planned output that exceeds `MAX_DIMENSION` on either axis.
pub fn validate_output_dimensions(width: u32, height: u32) -> (r: Result<(), TransformError>)
    ensures
        r is Ok <==> width <= MAX_DIMENSION && height <= MAX_DIMENSION,
        r is Err ==> r == Err::<(), TransformError>(
            TransformError::ResolutionTooLarge { width, height },
        ),
{
    if width > MAX_DIMENSION || height > MAX_DIMENSION {
        Err(TransformError::ResolutionTooLarge { width, height })
    } else {
        Ok(())
    }
}

/// The orientation the pipeline applies: the EXIF tag of the input, or
/// `Normal` when none is readable.
pub open spec fn effective_orientation(bytes: Seq<u8>) -> Orientation {
    match spec_read_orientation(bytes) {
        Some(o) => o,
        None => Orientation::Normal,
    }
}

/// The pixel contents and extents of the decoded input after orientation
/// normalization.
pub open spec fn spec_oriented_image(bytes: Seq<u8>) -> (Seq<u8>, u32, u32)
    recommends
        image_decoding(bytes) is Some,
{
    let decoded = image_decoding(bytes).unwrap();
    let o = effective_orientation(bytes);
    (
        oriented_data(o, decoded.0, decoded.1, decoded.2),
        oriented_width(o, decoded.1, decoded.2),
        oriented_height(o, decoded.1, decoded.2),
    )
}

/// The output extents the pipeline plans: the "contain" fit when a target
/// is requested, the oriented source extents otherwise.
pub open spec fn spec_planned_dims(bytes: Seq<u8>, p: TransformParams) -> (u32, u32)
    recommends
        image_decoding(bytes) is Some,
{
    let oriented = spec_oriented_image(bytes);
    if p.width is Some || p.height is Some {
        let planned = plan_dims(oriented.1 as int, oriented.2 as int, p.width, p.height);
        (planned.0 as u32, planned.1 as u32)
    } else {
        (oriented.1, oriented.2)
    }
}

/// Whether the pipeline's resize step succeeds: no resize is planned, or
/// the named resizer accepts the oriented picture at the planned extents.
pub open spec fn spec_resize_succeeds(bytes: Seq<u8>, p: TransformParams) -> bool
    recommends
        image_decoding(bytes) is Some,
{
    let oriented = spec_oriented_image(bytes);
    let planned = spec_planned_dims(bytes, p);
    planned.0 == oriented.1 && planned.1 == oriented.2 || lanczos3_resized(
        oriented.0,
        oriented.1,
        oriented.2,
        planned.0,
        planned.1,
    ) is Some
}

/// The pixel contents handed to the encoder: the oriented picture,
/// downscaled when the planned extents differ from it.
pub open spec fn spec_final_data(bytes: Seq<u8>, p: TransformParams) -> Seq<u8>
    recommends
        image_decoding(bytes) is Some,
        spec_resize_succeeds(bytes, p),
{
    let oriented = spec_oriented_image(bytes);
    let planned = spec_planned_dims(bytes, p);
    if planned.0 == oriented.1 && planned.1 == oriented.2 {
        oriented.0
    } else {
        lanczos3_resized(oriented.0, oriented.1, oriented.2, planned.0, planned.1).unwrap()
    }
}

/// The failure the pipeline owes for the given input and parameters, in
/// stage order, or `None` when every determinate guard passes and the
/// outcome rests with the resize and encode codecs.
pub open spec fn spec_transform_err(bytes: Seq<u8>, p: TransformParams) -> Option<TransformError> {
    if !quality_in_range(p.quality) {
        Some(
            TransformError::InvalidParams { field: ParamField::Quality, value: p.quality as u32 },
        )
    } else if !dimension_param_ok(p.width) {
        Some(TransformError::InvalidParams { field: ParamField::Width, value: p.width.unwrap() })
    } else if !dimension_param_ok(p.height) {
        Some(TransformError::InvalidParams { field: ParamField::Height, value: p.height.unwrap() })
    } else {
        match image_decoding(bytes) {
            None => Some(TransformError::ProcessingFailed(ProcessingStage::Decode)),
            Some(decoded) => {
                if decoded.1 == 0 || decoded.2 == 0 {
                    Some(TransformError::ProcessingFailed(ProcessingStage::Decode))
                } else if decoded.1 as int * decoded.2 as int > MAX_PIXELS as int {
                    Some(
                        TransformError::ResolutionTooLarge { width: decoded.1, height: decoded.2 },
                    )
                } else {
                    let planned = spec_planned_dims(bytes, p);
                    if planned.0 > MAX_DIMENSION || planned.1 > MAX_DIMENSION {
                        Some(
                            TransformError::ResolutionTooLarge {
                                width: planned.0,
                                height: planned.1,
                            },
                        )
                    } else {
                        None
                    }
                }
            },
        }
    }
}

/// Transforms a raw image byte stream: validates the parameters, decodes
/// the bytes, rejects decompression bombs, normalizes EXIF orientation,
/// plans a "contain" fit, downscales when the plan shrinks the picture,
/// and re-encodes at the requested format and quality, returning the
/// bytes and their canonical content type. Metadata is stripped by the
/// decode-and-encode cycle itself, so the full sequence runs even with no
/// resize requested. A picture decoded to zero extent on either axis is
/// treated as a decode failure.
pub fn transform(input: &[u8], params: &TransformParams) -> (r: Result<
    (Vec<u8>, &'static str),
    TransformError,
>)
    ensures
        spec_transform_err(input@, *params) matches Some(e) ==> r == Err::<
            (Vec<u8>, &'static str),
            TransformError,
        >(e),
        spec_transform_err(input@, *params) is None ==> match r {
            Ok(out) => spec_resize_succeeds(input@, *params) && out.1@
                == params.format.spec_content_type() && spec_encoded_ok(
                params.format,
                out.0@,
                spec_final_data(input@, *params),
                spec_planned_dims(input@, *params).0,
                spec_planned_dims(input@, *params).1,
                params.quality,
            ) && spec_format_header_ok(params.format, out.0@),
            Err(e) => (!spec_resize_succeeds(input@, *params) && e
                == TransformError::ProcessingFailed(ProcessingStage::Resize)) || (
            spec_resize_succeeds(input@, *params) && e == TransformError::ProcessingFailed(
                ProcessingStage::Encode,
            ) && (params.format == OutputFormat::Avif || !spec_encode_succeeds(
                params.format,
                spec_final_data(input@, *params),
                spec_planned_dims(input@, *params).0,
                spec_planned_dims(input@, *params).1,
                params.quality,
            ))),
        },
{
    if let Err(e) = validate_params(params.width, params.height, Some(params.quality)) {
        return Err(e);
    }
    let img = match decode_image(input) {
        Ok(i) => i,
        Err(e) => {
            return Err(e);
        },
    };
    let src_w = dyn_width(&img);
    let src_h = dyn_height(&img);
    if src_w == 0 || src_h == 0 {
        return Err(TransformError::ProcessingFailed(ProcessingStage::Decode));
    }
    if let Err(e) = validate_source_dimensions(src_w, src_h) {
        return Err(e);
    }
    let orientation = match read_orientation(input) {
        Some(o) => o,
        None => Orientation::Normal,
    };
    let img = apply_orientation(img, orientation);
    let w = dyn_width(&img);
    let h = dyn_height(&img);
    let (dst_w, dst_h) = if params.width.is_some() || params.height.is_some() {
        calculate_contain_dimensions(w, h, params.width, params.height)
    } else {
        (w, h)
    };
    if let Err(e) = validate_output_dimensions(dst_w, dst_h) {
        return Err(e);
    }
    let final_img = if dst_w != w || dst_h != h {
        proof {
            lemma_plan_never_enlarges(w as int, h as int, params.width, params.height);
            assert(dst_w as int * dst_h as int <= w as int * h as int) by (nonlinear_arith)
                requires
                    0 <= dst_w as int <= w as int,
                    0 <= dst_h as int <= h as int,
            ;
            assert(src_h as int * src_w as int == src_w as int * src_h as int)
                by (nonlinear_arith);
        }
        match resize_image(&img, dst_w, dst_h) {
            Ok(i) => i,
            Err(e) => {
                return Err(e);
            },
        }
    } else {
        img
    };
    let content_type = params.format.content_type();
    match encode_image(&final_img, params.format, params.quality) {
        Ok(bytes) => Ok((bytes, content_type)),
        Err(e) => Err(e),
    }
}

} // verus!
