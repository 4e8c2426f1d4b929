use media_core::OutputFormat;
use media_core::TransformParams;
use media_core::DEFAULT_QUALITY;

#[test]
fn test_output_format_from_str() {
    assert_eq!("jpeg".parse::<OutputFormat>().ok(), Some(OutputFormat::Jpeg));
    assert_eq!("JPG".parse::<OutputFormat>().ok(), Some(OutputFormat::Jpeg));
    assert_eq!("png".parse::<OutputFormat>().ok(), Some(OutputFormat::Png));
    assert_eq!("webp".parse::<OutputFormat>().ok(), Some(OutputFormat::WebP));
    assert_eq!("avif".parse::<OutputFormat>().ok(), Some(OutputFormat::Avif));
    assert!("unknown".parse::<OutputFormat>().is_err());
}

#[test]
fn test_content_type() {
    assert_eq!(OutputFormat::Jpeg.content_type(), "image/jpeg");
    assert_eq!(OutputFormat::Png.content_type(), "image/png");
    assert_eq!(OutputFormat::WebP.content_type(), "image/webp");
    assert_eq!(OutputFormat::Avif.content_type(), "image/avif");
}

#[test]
fn test_transform_params_default_quality() {
    let params = TransformParams::new(Some(800), Some(600), OutputFormat::Jpeg, None);
    assert_eq!(params.quality, DEFAULT_QUALITY);
}

#[test]
fn test_transform_params_keeps_given_quality() {
    let params = TransformParams::new(None, Some(600), OutputFormat::Avif, Some(55));
    assert_eq!(params.quality, 55);
    assert_eq!(params.width, None);
    assert_eq!(params.height, Some(600));
    assert_eq!(params.format, OutputFormat::Avif);
}

#[test]
fn test_parse_token_mixed_case_and_empty() {
    assert_eq!(OutputFormat::parse_token("WebP"), Some(OutputFormat::WebP));
    assert_eq!(OutputFormat::parse_token("AVIF"), Some(OutputFormat::Avif));
    assert_eq!(OutputFormat::parse_token("PnG"), Some(OutputFormat::Png));
    assert_eq!(OutputFormat::parse_token(""), None);
    assert_eq!(OutputFormat::parse_token("jpegs"), None);
    assert_eq!(OutputFormat::parse_token("gif"), None);
}
