use frameforge_server::error::AppError;

#[test]
fn test_error_status_codes() {
    assert_eq!(AppError::InvalidInput("test".into()).status_code(), 400);
    assert_eq!(AppError::ProviderNotFound("test".into()).status_code(), 404);
    assert_eq!(AppError::Config("test".into()).status_code(), 500);
}

#[test]
fn test_error_types() {
    assert_eq!(AppError::InvalidInput("test".into()).error_type(), "invalid_input");
    assert_eq!(AppError::ProviderNotFound("test".into()).error_type(), "provider_not_found");
}

#[test]
fn test_error_display() {
    let err = AppError::InvalidInput("bad data".into());
    assert_eq!(err.message(), "Invalid input: bad data");
}

#[test]
fn test_error_status_codes_all_variants() {
    assert_eq!(AppError::ImageProcessing("x".into()).status_code(), 400);
    assert_eq!(AppError::ProviderError("x".into()).status_code(), 500);
    assert_eq!(AppError::InternalServer("x".into()).status_code(), 500);
    assert_eq!(AppError::Internal("x".into()).status_code(), 500);
}

#[test]
fn test_error_types_all_variants() {
    assert_eq!(AppError::Config("x".into()).error_type(), "config_error");
    assert_eq!(AppError::ImageProcessing("x".into()).error_type(), "image_processing_error");
    assert_eq!(AppError::ProviderError("x".into()).error_type(), "provider_error");
    assert_eq!(AppError::InternalServer("x".into()).error_type(), "internal_server_error");
    assert_eq!(AppError::Internal("x".into()).error_type(), "internal_error");
}

#[test]
fn test_error_messages_carry_prefix() {
    assert_eq!(AppError::Config("c".into()).message(), "Configuration error: c");
    assert_eq!(AppError::ImageProcessing("i".into()).message(), "Image processing error: i");
    assert_eq!(AppError::ProviderNotFound("p".into()).message(), "Provider not found: p");
    assert_eq!(AppError::ProviderError("p".into()).message(), "Provider error: p");
    assert_eq!(AppError::InternalServer("s".into()).message(), "Internal server error: s");
    assert_eq!(AppError::Internal("raw".into()).message(), "raw");
}
