use image::DynamicImage;
use media_core::decode_image;
use media_core::encode_image;
use media_core::resize_image;
use media_core::OutputFormat;
use media_core::ProcessingStage;
use media_core::TransformError;

#[test]
fn test_encode_jpeg() {
    let img = DynamicImage::new_rgb8(10, 10);
    let result = encode_image(&img, OutputFormat::Jpeg, 80);

    assert!(result.is_ok());
    let data = result.unwrap();
    assert!(!data.is_empty());
    assert_eq!(&data[0..2], &[0xFF, 0xD8]);
}

#[test]
fn test_encode_png() {
    let img = DynamicImage::new_rgb8(10, 10);
    let result = encode_image(&img, OutputFormat::Png, 80);

    assert!(result.is_ok());
    let data = result.unwrap();
    assert!(!data.is_empty());
    assert_eq!(&data[0..8], &[0x89, 0x50, 0x4E, 0x47, 0x0D, 0x0A, 0x1A, 0x0A]);
}

#[test]
fn test_encode_webp() {
    let img = DynamicImage::new_rgb8(10, 10);
    let result = encode_image(&img, OutputFormat::WebP, 80);

    assert!(result.is_ok());
    let data = result.unwrap();
    assert!(!data.is_empty());
    assert_eq!(&data[0..4], b"RIFF");
}

#[test]
fn test_encode_avif() {
    let img = DynamicImage::new_rgb8(10, 10);
    let result = encode_image(&img, OutputFormat::Avif, 80);

    assert!(result.is_ok());
    let data = result.unwrap();
    assert!(!data.is_empty());
}

#[test]
fn test_resize_image() {
    let img = DynamicImage::new_rgb8(1000, 1000);
    let result = resize_image(&img, 500, 500);

    assert!(result.is_ok());
    let resized = result.unwrap();
    assert_eq!(resized.width(), 500);
    assert_eq!(resized.height(), 500);
}

#[test]
fn test_resize_exceeds_max_pixels() {
    let img = DynamicImage::new_rgb8(100, 100);
    let result = resize_image(&img, 100000, 100000);

    assert!(result.is_err());
    match result.unwrap_err() {
        TransformError::ResolutionTooLarge { width, height } => {
            assert_eq!(width, 100000);
            assert_eq!(height, 100000);
        }
        _ => panic!("expected ResolutionTooLarge error"),
    }
}

/// A small picture with a deterministic pixel pattern.
fn patterned(width: u32, height: u32) -> DynamicImage {
    let mut rgb = image::RgbImage::new(width, height);
    for y in 0..height {
        for x in 0..width {
            let v = ((x * 31 + y * 57) % 251) as u8;
            rgb.put_pixel(x, y, image::Rgb([v, v.wrapping_add(40), 255 - v]));
        }
    }
    DynamicImage::ImageRgb8(rgb)
}

#[test]
fn test_png_round_trip_is_lossless() {
    let img = patterned(16, 9);
    let encoded = encode_image(&img, OutputFormat::Png, 80).unwrap();
    let decoded = decode_image(&encoded).unwrap();
    assert_eq!(decoded.width(), 16);
    assert_eq!(decoded.height(), 9);
    assert_eq!(decoded.to_rgb8().into_raw(), img.to_rgb8().into_raw());
}

#[test]
fn test_encode_avif_opens_with_ftyp_box() {
    let img = DynamicImage::new_rgb8(10, 10);
    let data = encode_image(&img, OutputFormat::Avif, 80).unwrap();
    assert!(data.len() >= 8);
    assert_eq!(&data[4..8], b"ftyp");
}

#[test]
fn test_lossless_encodes_ignore_quality() {
    let img = patterned(11, 13);
    let png_low = encode_image(&img, OutputFormat::Png, 10).unwrap();
    let png_high = encode_image(&img, OutputFormat::Png, 95).unwrap();
    assert_eq!(png_low, png_high);
    let webp_low = encode_image(&img, OutputFormat::WebP, 10).unwrap();
    let webp_high = encode_image(&img, OutputFormat::WebP, 95).unwrap();
    assert_eq!(webp_low, webp_high);
}

#[test]
fn test_encode_failure_is_encode_stage() {
    // a JPEG axis is capped at 65535 pixels, so this encode fails at the
    // encode stage
    let img = DynamicImage::new_rgb8(70000, 1);
    match encode_image(&img, OutputFormat::Jpeg, 80) {
        Err(TransformError::ProcessingFailed(stage)) => {
            assert_eq!(stage, ProcessingStage::Encode);
        }
        other => panic!("expected an encode failure, got {other:?}"),
    }
}

#[test]
fn test_decode_rejects_garbage() {
    match decode_image(b"certainly not an image") {
        Err(TransformError::ProcessingFailed(stage)) => {
            assert_eq!(stage, ProcessingStage::Decode);
        }
        other => panic!("expected a decode failure, got {other:?}"),
    }
}

#[test]
fn test_decode_reads_back_dimensions() {
    let img = patterned(20, 30);
    let encoded = encode_image(&img, OutputFormat::Png, 80).unwrap();
    let decoded = decode_image(&encoded).unwrap();
    assert_eq!((decoded.width(), decoded.height()), (20, 30));
}
