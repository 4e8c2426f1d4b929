//! Verified core of an on-demand image transformation service.
//!
//! The library validates object keys and transform parameters, plans
//! aspect-preserving output dimensions ("contain" fit without enlargement),
//! normalizes EXIF orientation, and re-encodes pixel buffers through the
//! `image` and `fast_image_resize` crates behind trusted wrappers.

mod codec;
mod constants;
mod dimensions;
mod errors;
mod image_ops;
mod orientation;
mod params;
mod pipeline;
mod request;
mod storage;
mod validation;

pub use codec::decode_image;
pub use codec::encode_image;
pub use codec::resize_image;
pub use codec::spec_encode_succeeds;
pub use codec::spec_encoded_ok;
pub use codec::spec_format_header_ok;
pub use constants::DEFAULT_QUALITY;
pub use constants::MAX_DIMENSION;
pub use constants::MAX_PIXELS;
pub use dimensions::calculate_contain_dimensions;
pub use dimensions::calculate_height_only;
pub use dimensions::calculate_width_only;
pub use dimensions::clamp_min_one;
pub use dimensions::lemma_plan_never_enlarges;
pub use dimensions::lemma_plan_preserves_aspect;
pub use dimensions::plan_dims;
pub use dimensions::round_half_up;
pub use dimensions::scaled_axis;
pub use errors::MediaError;
pub use errors::ParamField;
pub use errors::ProcessingStage;
pub use errors::StorageError;
pub use errors::TransformError;
pub use errors::ValidationError;
pub use image_ops::exif_orientation_code;
pub use image_ops::fliph_bytes;
pub use image_ops::flipv_bytes;
pub use image_ops::jpeg_encoded;
pub use image_ops::lanczos3_resized;
pub use image_ops::png_encoded;
pub use image_ops::rotate180_bytes;
pub use image_ops::rotate270_bytes;
pub use image_ops::rotate90_bytes;
pub use image_ops::webp_lossless_encoded;
pub use image_ops::image_decoding;
pub use image_ops::img_data;
pub use image_ops::img_height;
pub use image_ops::img_width;
pub use orientation::apply_orientation;
pub use orientation::oriented_data;
pub use orientation::oriented_height;
pub use orientation::oriented_width;
pub use orientation::read_orientation;
pub use orientation::spec_read_orientation;
pub use orientation::Orientation;
pub use pipeline::effective_orientation;
pub use pipeline::spec_final_data;
pub use pipeline::spec_oriented_image;
pub use pipeline::spec_planned_dims;
pub use pipeline::spec_resize_succeeds;
pub use pipeline::spec_transform_err;
pub use pipeline::transform;
pub use pipeline::validate_output_dimensions;
pub use pipeline::validate_source_dimensions;
pub use params::char_matches_lower;
pub use params::spec_parse_format;
pub use params::token_matches;
pub use params::OutputFormat;
pub use params::TransformParams;
pub use request::AppError;
pub use request::RequestError;
pub use request::TransformQuery;
pub use storage::classify_fetch_status;
pub use storage::normalize_base_url;
pub use storage::trim_trailing_slashes;
pub use validation::all_key_chars_ok;
pub use validation::decoded_key_ok;
pub use validation::dimension_in_range;
pub use validation::dimension_param_ok;
pub use validation::has_adjacent;
pub use validation::has_char;
pub use validation::has_traversal;
pub use validation::key_char_ok;
pub use validation::percent_decoded;
pub use validation::quality_in_range;
pub use validation::quality_param_ok;
pub use validation::validate_key;
pub use validation::validate_params;
