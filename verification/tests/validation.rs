use media_core::validate_key;
use media_core::validate_params;
use media_core::MediaError;
use media_core::ParamField;
use media_core::TransformError;
use media_core::ValidationError;

#[test]
fn test_valid_params() {
    assert!(validate_params(Some(800), Some(600), Some(80)).is_ok());
    assert!(validate_params(None, None, None).is_ok());
    assert!(validate_params(Some(1920), None, Some(90)).is_ok());
}

#[test]
fn test_invalid_quality() {
    assert!(validate_params(None, None, Some(0)).is_err());
    assert!(validate_params(None, None, Some(101)).is_err());
}

#[test]
fn test_invalid_dimensions() {
    assert!(validate_params(Some(0), None, None).is_err());
    assert!(validate_params(Some(5000), None, None).is_err());
    assert!(validate_params(None, Some(5000), None).is_err());
}

#[test]
fn test_invalid_params_name_field_and_value() {
    match validate_params(Some(5000), None, None) {
        Err(TransformError::InvalidParams { field, value }) => {
            assert_eq!(field, ParamField::Width);
            assert_eq!(value, 5000);
        }
        other => panic!("expected InvalidParams, got {other:?}"),
    }
    match validate_params(Some(800), Some(600), Some(101)) {
        Err(TransformError::InvalidParams { field, value }) => {
            assert_eq!(field, ParamField::Quality);
            assert_eq!(value, 101);
        }
        other => panic!("expected InvalidParams, got {other:?}"),
    }
    match validate_params(Some(800), Some(0), None) {
        Err(TransformError::InvalidParams { field, value }) => {
            assert_eq!(field, ParamField::Height);
            assert_eq!(value, 0);
        }
        other => panic!("expected InvalidParams, got {other:?}"),
    }
}

#[test]
fn test_valid_keys() {
    assert!(validate_key("test.jpg").is_ok());
    assert!(validate_key("folder/image.png").is_ok());
    assert!(validate_key("2024/01/photo-123.webp").is_ok());
}

#[test]
fn test_empty_key() {
    assert!(validate_key("").is_err());
}

#[test]
fn test_path_traversal() {
    assert!(validate_key("../etc/passwd").is_err());
    assert!(validate_key("folder/../secret.txt").is_err());
    assert!(validate_key("//etc/passwd").is_err());
}

fn key_error(key: &str) -> ValidationError {
    match validate_key(key) {
        Err(MediaError::Validation(v)) => v,
        other => panic!("expected a validation error for {key:?}, got {other:?}"),
    }
}

#[test]
fn test_key_error_variants() {
    assert_eq!(key_error(""), ValidationError::EmptyKey);
    assert_eq!(key_error(&"a".repeat(1025)), ValidationError::KeyTooLong);
    assert_eq!(key_error("%ff"), ValidationError::InvalidEncoding);
    assert_eq!(key_error("../etc/passwd"), ValidationError::PathTraversal);
    assert_eq!(key_error("/leading"), ValidationError::PathTraversal);
    assert_eq!(key_error("a\\b"), ValidationError::PathTraversal);
    assert_eq!(key_error("name with space"), ValidationError::InvalidCharacter);
    assert_eq!(key_error("emoji\u{1F600}.png"), ValidationError::InvalidCharacter);
    assert!(validate_key(&"a".repeat(1024)).is_ok());
}

#[test]
fn test_percent_encoded_traversal_is_caught() {
    // "%2e%2e%2f" decodes to "../", so the decoded form is what is checked
    assert_eq!(key_error("%2e%2e%2fetc/passwd"), ValidationError::PathTraversal);
    assert_eq!(key_error("%2f%2fetc"), ValidationError::PathTraversal);
    assert_eq!(key_error("a%5cb"), ValidationError::PathTraversal);
    // a percent-encoded space decodes to a refused character
    assert_eq!(key_error("a%20b"), ValidationError::InvalidCharacter);
    // percent-encoding of accepted characters stays accepted
    assert!(validate_key("%66older/image.png").is_ok());
}
