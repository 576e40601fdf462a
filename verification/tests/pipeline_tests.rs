use frameforge_server::config::AppConfig;
use frameforge_server::error::AppError;
use frameforge_server::factory::Editor;
use frameforge_server::google_nano_banana::{GoogleEditStep, GoogleNanaBananaEditor};
use frameforge_server::pipeline::{
    classify_field, prepare_edit_call, response_content_type, EditRequestBuilder, FieldKind,
};
use frameforge_server::rate_limit::RateLimiter;
use frameforge_server::request::EditImageRequest;
use frameforge_server::response::HealthResponse;

/// Minimal 1x1 white PNG.
fn create_test_png() -> Vec<u8> {
    vec![
        0x89, 0x50, 0x4E, 0x47, 0x0D, 0x0A, 0x1A, 0x0A,
        0x00, 0x00, 0x00, 0x0D, 0x49, 0x48, 0x44, 0x52,
        0x00, 0x00, 0x00, 0x01, 0x00, 0x00, 0x00, 0x01,
        0x08, 0x02, 0x00, 0x00, 0x00, 0x90, 0x77, 0x53, 0xDE,
        0x00, 0x00, 0x00, 0x0C, 0x49, 0x44, 0x41, 0x54,
        0x08, 0xD7, 0x63, 0xF8, 0xFF, 0xFF, 0x3F, 0x00, 0x05, 0xFE, 0x02, 0xFE,
        0xDC, 0xCC, 0x59, 0xE7,
        0x00, 0x00, 0x00, 0x00, 0x49, 0x45, 0x4E, 0x44,
        0xAE, 0x42, 0x60, 0x82,
    ]
}

fn google_only_config() -> AppConfig {
    AppConfig {
        google_api_key: Some("test-google-key".to_string()),
        gemini_api_key: None,
        fal_key: None,
        google_model_id: "test-model".to_string(),
        allowed_origins: vec!["*".to_string()],
        host: "127.0.0.1".to_string(),
        port: 8000,
    }
}

fn fal_only_config() -> AppConfig {
    AppConfig {
        google_api_key: None,
        gemini_api_key: None,
        fal_key: Some("test-fal-key".to_string()),
        google_model_id: "test-model".to_string(),
        allowed_origins: vec!["*".to_string()],
        host: "127.0.0.1".to_string(),
        port: 8000,
    }
}

#[test]
fn test_edit_image_request_validation() {
    let request = EditImageRequest::new(vec![vec![1, 2, 3]]);
    assert!(request.validate().is_ok());

    let empty_request = EditImageRequest::new(vec![]);
    assert!(empty_request.validate().is_err());
}

#[test]
fn edit_test_default_prompt() {
    let request = EditImageRequest::new(vec![vec![1, 2, 3]]);
    let prompt = request.get_prompt();
    assert!(!prompt.is_empty());
    assert!(prompt.contains("minimalist modern furniture"));
}

#[test]
fn edit_test_default_provider() {
    let request = EditImageRequest::new(vec![vec![1, 2, 3]]);
    assert_eq!(request.get_provider(), "google");
}

#[test]
fn test_classify_field() {
    assert!(matches!(classify_field("images"), FieldKind::Image));
    assert!(matches!(classify_field("image"), FieldKind::Image));
    assert!(matches!(classify_field("prompt"), FieldKind::Prompt));
    assert!(matches!(classify_field("provider"), FieldKind::Provider));
    // Unknown field names are ignored, not rejected.
    assert!(matches!(classify_field("unexpected"), FieldKind::Other));
}

#[test]
fn test_builder_skips_empty_image_fields() {
    let mut builder = EditRequestBuilder::new();
    assert_eq!(builder.add_image_field(vec![]).unwrap(), false);
    assert_eq!(builder.add_image_field(create_test_png()).unwrap(), true);
    let request = builder.finish().unwrap();
    assert_eq!(request.images.len(), 1);
}

#[test]
fn test_builder_rejects_non_image_data() {
    let mut builder = EditRequestBuilder::new();
    let err = builder.add_image_field(vec![0x00, 0x01, 0x02]).unwrap_err();
    assert!(matches!(err, AppError::ImageProcessing(_)));
    assert_eq!(err.status_code(), 400);
}

#[test]
fn test_builder_keeps_nonblank_text_fields_only() {
    let mut builder = EditRequestBuilder::new();
    builder.set_prompt("   ".to_string());
    builder.set_provider("".to_string());
    assert!(builder.prompt.is_none());
    assert!(builder.provider.is_none());
    builder.set_prompt("a prompt".to_string());
    builder.set_provider("google".to_string());
    assert_eq!(builder.prompt.as_deref(), Some("a prompt"));
    assert_eq!(builder.provider.as_deref(), Some("google"));
}

#[test]
fn test_scenario_single_png_resolves_google() {
    // One valid PNG, no prompt, no provider: the default provider resolves
    // to the chat-based editor under the configured Google-family key, the
    // default prompt stands in, and the first image is handed over.
    let mut builder = EditRequestBuilder::new();
    builder.add_image_field(create_test_png()).unwrap();
    let request = builder.finish().unwrap();
    let call = prepare_edit_call(request, google_only_config(), None, None, None).unwrap();
    assert!(matches!(call.editor, Editor::Google(_)));
    assert!(call.prompt.contains("minimalist modern furniture"));
    assert_eq!(call.image, create_test_png());
}

#[test]
fn test_scenario_development_fallback_returns_original_png() {
    // The development fallback: an editor without a credential hands the
    // input back unchanged, and the response content type re-sniffs as PNG.
    let config = AppConfig {
        google_api_key: None,
        gemini_api_key: None,
        fal_key: Some("k".to_string()),
        google_model_id: "test-model".to_string(),
        allowed_origins: vec!["*".to_string()],
        host: "127.0.0.1".to_string(),
        port: 8000,
    };
    let editor = GoogleNanaBananaEditor::new(&config);
    let png = create_test_png();
    match editor.prepare_edit(png.clone(), "prompt") {
        GoogleEditStep::Unchanged(out) => {
            assert_eq!(out, png);
            assert_eq!(response_content_type(&out), "image/png");
        },
        _ => panic!("expected the development fallback"),
    }
}

#[test]
fn test_scenario_fal_identifier_without_model_path() {
    // Submitting "fal:" with a Fal credential configured: a not-found error
    // whose message mentions the model path.
    let mut builder = EditRequestBuilder::new();
    builder.add_image_field(create_test_png()).unwrap();
    builder.set_provider("fal:".to_string());
    let request = builder.finish().unwrap();
    let err = prepare_edit_call(request, fal_only_config(), None, None, None).unwrap_err();
    assert_eq!(err.status_code(), 404);
    assert!(err.message().contains("model path"));
}

#[test]
fn test_scenario_zero_images() {
    // Submitting zero images: a client error mentioning that at least one
    // image is required.
    let builder = EditRequestBuilder::new();
    let err = builder.finish().unwrap_err();
    assert_eq!(err.status_code(), 400);
    assert!(err.message().to_lowercase().contains("at least one image"));
}

#[test]
fn test_scenario_101_requests_within_hour() {
    // 101 requests within one hour from the same client to the edit
    // endpoint: the 101st is rejected with a retry hint of at most 3600 s.
    let mut limiter = RateLimiter::new();
    let mut rejected = None;
    for i in 0..101u64 {
        match limiter.check_rate_limit("203.0.113.9", "/api/edit", i * 35) {
            Ok(()) => assert!(i < 100, "request {} should have been rejected", i),
            Err(retry) => {
                assert_eq!(i, 100, "request {} rejected too early", i);
                rejected = Some(retry);
            },
        }
    }
    let retry_after = rejected.expect("the 101st request must be rejected");
    assert!(retry_after <= 3600);
}

#[test]
fn test_header_overrides_take_effect() {
    // A Fal credential supplied per request makes a dynamic provider usable
    // even when the base configuration has none.
    let mut builder = EditRequestBuilder::new();
    builder.add_image_field(create_test_png()).unwrap();
    builder.set_provider("fal:fal-ai/flux/dev".to_string());
    let request = builder.finish().unwrap();
    let call = prepare_edit_call(
        request,
        google_only_config(),
        None,
        None,
        Some("header-fal-key".to_string()),
    )
    .unwrap();
    match call.editor {
        Editor::Fal(f) => assert_eq!(f.api_key, "header-fal-key"),
        _ => panic!("expected the dynamic editor"),
    }
}

#[test]
fn test_response_content_type_defaults_to_png() {
    assert_eq!(response_content_type(&create_test_png()), "image/png");
    assert_eq!(response_content_type(&[0xFF, 0xD8, 0xFF, 0xE0]), "image/jpeg");
    assert_eq!(response_content_type(b"GIF89a trailer"), "image/png");
}

#[test]
fn test_health_check() {
    let response = HealthResponse::ok();
    assert_eq!(response.status, "ok");
}

#[test]
fn test_health_response_ok() {
    let response = HealthResponse::ok();
    assert_eq!(response.status, "ok");
}

#[test]
fn test_health_response_default() {
    let response = HealthResponse::default();
    assert_eq!(response.status, "ok");
}
