use image::DynamicImage;
use media_core::encode_image;
use media_core::transform;
use media_core::validate_output_dimensions;
use media_core::validate_source_dimensions;
use media_core::OutputFormat;
use media_core::ParamField;
use media_core::ProcessingStage;
use media_core::TransformError;
use media_core::TransformParams;

fn patterned_png(width: u32, height: u32) -> Vec<u8> {
    let mut rgb = image::RgbImage::new(width, height);
    for y in 0..height {
        for x in 0..width {
            let v = ((x * 13 + y * 29) % 200) as u8;
            rgb.put_pixel(x, y, image::Rgb([v, 255 - v, v / 2]));
        }
    }
    encode_image(&DynamicImage::ImageRgb8(rgb), OutputFormat::Png, 80).unwrap()
}

#[test]
fn test_transform_resizes_and_labels_output() {
    let input = patterned_png(100, 50);
    let params = TransformParams::new(Some(40), None, OutputFormat::Png, None);
    let (bytes, content_type) = transform(&input, &params).unwrap();
    assert_eq!(content_type, "image/png");
    let out = image::load_from_memory(&bytes).unwrap();
    assert_eq!((out.width(), out.height()), (40, 20));
}

#[test]
fn test_transform_without_targets_reencodes() {
    let input = patterned_png(12, 7);
    let params = TransformParams::new(None, None, OutputFormat::Jpeg, Some(90));
    let (bytes, content_type) = transform(&input, &params).unwrap();
    assert_eq!(content_type, "image/jpeg");
    assert_eq!(&bytes[0..2], &[0xFF, 0xD8]);
    let out = image::load_from_memory(&bytes).unwrap();
    assert_eq!((out.width(), out.height()), (12, 7));
}

#[test]
fn test_transform_never_enlarges() {
    let input = patterned_png(30, 20);
    let params = TransformParams::new(Some(4096), Some(4096), OutputFormat::Png, None);
    let (bytes, _) = transform(&input, &params).unwrap();
    let out = image::load_from_memory(&bytes).unwrap();
    assert_eq!((out.width(), out.height()), (30, 20));
}

#[test]
fn test_transform_rejects_invalid_params_first() {
    let params = TransformParams::new(Some(5000), None, OutputFormat::Png, None);
    match transform(b"not even an image", &params) {
        Err(TransformError::InvalidParams { field, value }) => {
            assert_eq!(field, ParamField::Width);
            assert_eq!(value, 5000);
        }
        other => panic!("expected InvalidParams, got {other:?}"),
    }
}

#[test]
fn test_transform_rejects_undecodable_input() {
    let params = TransformParams::new(None, None, OutputFormat::Png, None);
    match transform(&[0u8; 64], &params) {
        Err(TransformError::ProcessingFailed(stage)) => {
            assert_eq!(stage, ProcessingStage::Decode);
        }
        other => panic!("expected a decode failure, got {other:?}"),
    }
}

#[test]
fn test_source_pixel_guard() {
    assert!(validate_source_dimensions(31622, 31622).is_ok());
    match validate_source_dimensions(40000, 30000) {
        Err(TransformError::ResolutionTooLarge { width, height }) => {
            assert_eq!((width, height), (40000, 30000));
        }
        other => panic!("expected ResolutionTooLarge, got {other:?}"),
    }
}

#[test]
fn test_output_dimension_guard() {
    assert!(validate_output_dimensions(4096, 4096).is_ok());
    match validate_output_dimensions(4097, 10) {
        Err(TransformError::ResolutionTooLarge { width, height }) => {
            assert_eq!((width, height), (4097, 10));
        }
        other => panic!("expected ResolutionTooLarge, got {other:?}"),
    }
}
