use frameforge_server::config::AppConfig;
use frameforge_server::factory::{get_editor, list_providers, Editor};

fn make_test_config() -> AppConfig {
    AppConfig {
        google_api_key: Some("test-google-key".to_string()),
        gemini_api_key: None,
        fal_key: Some("test-fal-key".to_string()),
        google_model_id: "test-model".to_string(),
        allowed_origins: vec!["*".to_string()],
        host: "127.0.0.1".to_string(),
        port: 8000,
    }
}

fn make_config_no_keys() -> AppConfig {
    AppConfig {
        google_api_key: None,
        gemini_api_key: None,
        fal_key: None,
        google_model_id: "test-model".to_string(),
        allowed_origins: vec!["*".to_string()],
        host: "127.0.0.1".to_string(),
        port: 8000,
    }
}

#[test]
fn test_list_providers_with_all_keys() {
    let config = make_test_config();
    let providers = list_providers(&config);

    // Should include only Google providers (Fal is dynamic, not listed)
    assert!(providers.contains(&"google".to_string()));
    assert!(providers.contains(&"nano-banana".to_string()));
    // Dynamic fal: providers are not enumerated in the list
    assert!(!providers.iter().any(|p| p.starts_with("fal:")));
}

#[test]
fn factory_test_list_providers_no_keys() {
    let config = make_config_no_keys();
    let providers = list_providers(&config);

    // Should be empty when no keys configured
    assert!(providers.is_empty());
}

#[test]
fn test_list_providers_only_google() {
    let mut config = make_config_no_keys();
    config.google_api_key = Some("test-key".to_string());
    let providers = list_providers(&config);

    // Should include only Google providers
    assert!(providers.contains(&"google".to_string()));
    assert!(providers.contains(&"nano-banana".to_string()));
    assert!(!providers.iter().any(|p| p.starts_with("fal:")));
}

#[test]
fn test_list_providers_only_fal() {
    let mut config = make_config_no_keys();
    config.fal_key = Some("test-key".to_string());
    let providers = list_providers(&config);

    // Should NOT include Fal providers in list (they are dynamic, not static)
    assert!(!providers.contains(&"google".to_string()));
    assert!(providers.is_empty()); // No static providers with only FAL_KEY
}

#[test]
fn test_list_providers_sorted() {
    let config = make_test_config();
    let providers = list_providers(&config);
    let mut sorted = providers.clone();
    sorted.sort();
    assert_eq!(providers, sorted);
}

#[test]
fn test_get_google_editor() {
    let config = make_test_config();
    let result = get_editor("google", &config);
    assert!(result.is_ok());
}

#[test]
fn test_get_nano_banana_editor() {
    let config = make_test_config();
    let result = get_editor("nano-banana", &config);
    assert!(result.is_ok());
}

#[test]
fn test_google_editor_no_key() {
    let config = make_config_no_keys();
    let result = get_editor("google", &config);
    assert!(result.is_err());
    if let Err(e) = result {
        assert!(e.message().contains("not configured"));
    }
}

#[test]
fn test_fal_provider_parsing() {
    let config = make_test_config();
    let result = get_editor("fal:fal-ai/flux/dev", &config);
    assert!(result.is_ok());
}

#[test]
fn test_empty_fal_model_path() {
    let config = make_test_config();
    let result = get_editor("fal:", &config);
    assert!(result.is_err());
    if let Err(e) = result {
        assert!(e.message().contains("requires a model path"));
    }
}

#[test]
fn test_fal_model_path_only_whitespace() {
    let config = make_test_config();
    let result = get_editor("fal:   ", &config);
    assert!(result.is_err());
    if let Err(e) = result {
        assert!(e.message().contains("requires a model path"));
    }
}

#[test]
fn test_empty_fal_model_path_without_keys() {
    // The model-path-required error comes regardless of configured credentials.
    let config = make_config_no_keys();
    let result = get_editor("fal:", &config);
    assert!(result.is_err());
    if let Err(e) = result {
        assert!(e.message().contains("requires a model path"));
    }
}

#[test]
fn test_fal_provider_no_key() {
    let config = make_config_no_keys();
    let result = get_editor("fal:fal-ai/flux/dev", &config);
    assert!(result.is_err());
    if let Err(e) = result {
        assert!(e.message().contains("not configured"));
    }
}

#[test]
fn test_unknown_provider_defaults_to_google() {
    let config = make_test_config();
    let result = get_editor("unknown-provider", &config);
    // Should default to Google successfully
    assert!(result.is_ok());
}

#[test]
fn test_unknown_provider_no_fallback() {
    let config = make_config_no_keys();
    let result = get_editor("unknown-provider", &config);
    // Should fail when no Google key available
    assert!(result.is_err());
    if let Err(e) = result {
        assert!(e.message().contains("not found"));
    }
}

#[test]
fn test_provider_name_normalization_uppercase() {
    let config = make_test_config();
    // Test uppercase provider names are normalized
    assert!(get_editor("GOOGLE", &config).is_ok());
    assert!(get_editor("Nano-Banana", &config).is_ok());
    assert!(get_editor("FAL:fal-ai/flux/dev", &config).is_ok());
}

#[test]
fn test_provider_name_normalization_whitespace() {
    let config = make_test_config();
    // Test whitespace is trimmed
    assert!(get_editor("  google  ", &config).is_ok());
    assert!(get_editor(" nano-banana ", &config).is_ok());
    assert!(get_editor(" fal:fal-ai/flux/dev ", &config).is_ok());
}

#[test]
fn test_provider_name_normalization_mixed() {
    let config = make_test_config();
    // Test combined uppercase and whitespace
    assert!(get_editor("  GOOGLE  ", &config).is_ok());
    assert!(get_editor(" Nano-BANANA ", &config).is_ok());
    assert!(get_editor("  FAL:fal-ai/FLUX/dev  ", &config).is_ok());
}

#[test]
fn test_case_variants_resolve_to_same_editor_kind() {
    let config = make_test_config();
    let lower = get_editor("google", &config).unwrap();
    let upper = get_editor(" GOOGLE ", &config).unwrap();
    assert!(matches!(lower, Editor::Google(_)));
    assert!(matches!(upper, Editor::Google(_)));

    let fal_lower = get_editor("fal:fal-ai/flux/dev", &config).unwrap();
    let fal_upper = get_editor("  FAL:FAL-AI/FLUX/DEV  ", &config).unwrap();
    match (fal_lower, fal_upper) {
        (Editor::Fal(a), Editor::Fal(b)) => assert_eq!(a.model_path, b.model_path),
        _ => panic!("expected the dynamic editor for both spellings"),
    }
}

#[test]
fn test_fal_model_path_is_normalized() {
    let config = make_test_config();
    let editor = get_editor("FAL:  Fal-AI/Flux/Dev  ", &config).unwrap();
    match editor {
        Editor::Fal(f) => assert_eq!(f.model_path, b"fal-ai/flux/dev".to_vec()),
        _ => panic!("expected the dynamic editor"),
    }
}
