use media_core::classify_fetch_status;
use media_core::normalize_base_url;
use media_core::AppError;
use media_core::OutputFormat;
use media_core::ParamField;
use media_core::ProcessingStage;
use media_core::RequestError;
use media_core::StorageError;
use media_core::TransformError;
use media_core::TransformQuery;
use media_core::ValidationError;
use media_core::DEFAULT_QUALITY;

#[test]
fn test_normalize_base_url() {
    assert_eq!(normalize_base_url("https://storage.example.com/"), "https://storage.example.com");
    assert_eq!(normalize_base_url("https://storage.example.com"), "https://storage.example.com");
    assert_eq!(normalize_base_url("https://h///"), "https://h");
    assert_eq!(normalize_base_url(""), "");
}

#[test]
fn test_classify_fetch_status() {
    assert!(classify_fetch_status(200, "k").is_ok());
    assert!(classify_fetch_status(204, "k").is_ok());
    assert!(classify_fetch_status(299, "k").is_ok());
    match classify_fetch_status(404, "missing.png") {
        Err(StorageError::NotFound { key }) => assert_eq!(key, "missing.png"),
        other => panic!("expected NotFound, got {other:?}"),
    }
    assert_eq!(classify_fetch_status(403, "k"), Err(StorageError::Forbidden));
    assert_eq!(classify_fetch_status(500, "k"), Err(StorageError::UnexpectedStatus { status: 500 }));
    assert_eq!(classify_fetch_status(301, "k"), Err(StorageError::UnexpectedStatus { status: 301 }));
}

#[test]
fn test_app_error_from_transform_error() {
    let e: AppError = TransformError::InvalidParams { field: ParamField::Width, value: 0 }.into();
    assert_eq!(e, AppError::BadRequest(RequestError::Params { field: ParamField::Width, value: 0 }));
    let e: AppError = TransformError::ResolutionTooLarge { width: 9000, height: 2 }.into();
    assert_eq!(e, AppError::BadRequest(RequestError::TooLarge { width: 9000, height: 2 }));
    let e: AppError = TransformError::ProcessingFailed(ProcessingStage::Encode).into();
    assert_eq!(e, AppError::TransformFailed(ProcessingStage::Encode));
}

#[test]
fn test_app_error_from_storage_error() {
    let e: AppError = StorageError::NotFound { key: "k".to_string() }.into();
    assert_eq!(e, AppError::NotFound);
    let e: AppError = StorageError::Forbidden.into();
    assert_eq!(e, AppError::StorageUnavailable);
    let e: AppError = StorageError::TransportFailure.into();
    assert_eq!(e, AppError::StorageUnavailable);
    let e: AppError = StorageError::UnexpectedStatus { status: 500 }.into();
    assert_eq!(e, AppError::StorageUnavailable);
}

#[test]
fn test_app_error_status_codes() {
    let bad = AppError::BadRequest(RequestError::Key(ValidationError::EmptyKey));
    assert_eq!(bad.status_code(), 400);
    assert_eq!(AppError::NotFound.status_code(), 404);
    assert_eq!(AppError::TransformFailed(ProcessingStage::Decode).status_code(), 422);
    assert_eq!(AppError::StorageUnavailable.status_code(), 502);
    assert_eq!(AppError::Internal.status_code(), 500);
}

#[test]
fn test_query_to_params() {
    let q = TransformQuery {
        width: Some(800),
        height: None,
        format: Some("webp".to_string()),
        quality: Some(70),
    };
    let p = q.to_params().unwrap();
    assert_eq!(p.width, Some(800));
    assert_eq!(p.height, None);
    assert_eq!(p.format, OutputFormat::WebP);
    assert_eq!(p.quality, 70);

    let q = TransformQuery { width: None, height: None, format: None, quality: None };
    let p = q.to_params().unwrap();
    assert_eq!(p.format, OutputFormat::Jpeg);
    assert_eq!(p.quality, DEFAULT_QUALITY);

    let q = TransformQuery {
        width: None,
        height: None,
        format: Some("tiff".to_string()),
        quality: None,
    };
    assert_eq!(q.to_params(), Err(AppError::BadRequest(RequestError::UnknownFormat)));
}
