use frameforge_server::config::AppConfig;
use frameforge_server::error::AppError;
use frameforge_server::fal_editor::{FalEditor, FalResponseShape, FalResultAction};
use frameforge_server::google_nano_banana::{GoogleEditStep, GoogleNanaBananaEditor};

fn make_test_config() -> AppConfig {
    AppConfig {
        google_api_key: Some("test-google-key".to_string()),
        gemini_api_key: None,
        fal_key: Some("test-fal-key".to_string()),
        google_model_id: "test-model".to_string(),
        allowed_origins: vec!["*".to_string()],
        host: "127.0.0.1".to_string(),
        port: 8000,
    }
}

fn make_config_no_keys() -> AppConfig {
    AppConfig {
        google_api_key: None,
        gemini_api_key: None,
        fal_key: None,
        google_model_id: "test-model".to_string(),
        allowed_origins: vec!["*".to_string()],
        host: "127.0.0.1".to_string(),
        port: 8000,
    }
}

#[test]
fn test_detect_mime_type_png() {
    let png_header = b"\x89PNG\r\n\x1a\n";
    assert_eq!(FalEditor::detect_mime_type(png_header), "image/png");
}

#[test]
fn test_detect_mime_type_jpeg() {
    let jpeg_header = b"\xff\xd8\xff";
    assert_eq!(FalEditor::detect_mime_type(jpeg_header), "image/jpeg");
}

#[test]
fn test_detect_mime_type_gif() {
    let gif_header = b"GIF89a";
    assert_eq!(FalEditor::detect_mime_type(gif_header), "image/gif");
}

#[test]
fn test_bytes_to_data_uri() {
    let image_data = b"\x89PNG\r\n\x1a\ntest data";
    let data_uri = FalEditor::bytes_to_data_uri(image_data);
    assert!(data_uri.starts_with("data:image/png;base64,"));
}

#[test]
fn test_decode_data_uri() {
    let test_data = b"Hello, World!";
    let base64_data = base64::Engine::encode(&base64::engine::general_purpose::STANDARD, test_data);
    let data_uri = format!("data:text/plain;base64,{}", base64_data);

    let result = FalEditor::decode_data_uri(&data_uri);
    assert!(result.is_ok());

    let (decoded, mime) = result.unwrap();
    assert_eq!(&decoded[..], test_data);
    assert_eq!(mime, Some("text/plain".to_string()));
}

#[test]
fn test_decode_invalid_data_uri() {
    let err = FalEditor::decode_data_uri("not a data uri").unwrap_err();
    assert_eq!(err.message(), "Provider error: Not a data URI");
    let err = FalEditor::decode_data_uri("data:text/plain").unwrap_err();
    assert_eq!(err.message(), "Provider error: Malformed data URI: missing comma separator");
}

#[test]
fn test_decode_data_uri_bad_payload() {
    // A payload outside the base64 alphabet must fail, not panic.
    let err = FalEditor::decode_data_uri("data:image/png;base64,!!!not-base64!!!").unwrap_err();
    assert_eq!(err.message(), "Provider error: Failed to decode base64 data from data URI");
}

#[test]
fn test_data_uri_round_trip() {
    let bytes = b"\x89PNG\r\n\x1a\narbitrary payload \x00\x01\x02".to_vec();
    let uri = FalEditor::bytes_to_data_uri(&bytes);
    let (decoded, mime) = FalEditor::decode_data_uri(&uri).unwrap();
    assert_eq!(decoded, bytes);
    assert_eq!(mime, Some("image/png".to_string()));
}

#[test]
fn test_fal_new_requires_key() {
    let with_key = make_test_config();
    let editor = FalEditor::new(b"fal-ai/flux/dev".to_vec(), &with_key).unwrap();
    assert_eq!(editor.api_key, "test-fal-key");

    let without_key = make_config_no_keys();
    let err = FalEditor::new(b"fal-ai/flux/dev".to_vec(), &without_key).unwrap_err();
    assert_eq!(err.message(), "Provider not found: FAL_KEY not configured");
}

#[test]
fn test_build_request_single_image_models() {
    let config = make_test_config();
    let single = FalEditor::new(b"fal-ai/flux-kontext/dev".to_vec(), &config).unwrap();
    let plan = single.build_request(b"\xff\xd8\xffjpeg", "edit this");
    assert!(plan.single_image);
    assert!(plan.sync_mode);
    assert_eq!(plan.output_format, "png");
    assert_eq!(plan.prompt, "edit this");
    assert_eq!(
        plan.url,
        b"https://queue.fal.run/fal-ai/flux-kontext/dev/subscribe".to_vec()
    );
    assert!(plan.image_data_uri.starts_with("data:image/jpeg;base64,"));

    let multi = FalEditor::new(b"fal-ai/nano-banana/edit".to_vec(), &config).unwrap();
    let plan = multi.build_request(b"\xff\xd8\xffjpeg", "edit this");
    assert!(!plan.single_image);

    let qwen = FalEditor::new(b"fal-ai/qwen-image-edit".to_vec(), &config).unwrap();
    assert!(qwen.build_request(b"\xff\xd8\xffjpeg", "p").single_image);
}

#[test]
fn test_extract_image_url_priority() {
    // The single image field wins over the array and the nested result.
    let shape = FalResponseShape {
        image: Some("https://img.example/one.png".to_string()),
        images: vec!["https://img.example/two.png".to_string()],
        result: Some("https://img.example/three.png".to_string()),
    };
    assert_eq!(
        FalEditor::extract_image_url(&shape),
        Some("https://img.example/one.png".to_string())
    );

    // Then the first of the array.
    let shape = FalResponseShape {
        image: None,
        images: vec![
            "https://img.example/two.png".to_string(),
            "https://img.example/extra.png".to_string(),
        ],
        result: Some("https://img.example/three.png".to_string()),
    };
    assert_eq!(
        FalEditor::extract_image_url(&shape),
        Some("https://img.example/two.png".to_string())
    );

    // Then the nested result field.
    let shape = FalResponseShape {
        image: None,
        images: vec![],
        result: Some("https://img.example/three.png".to_string()),
    };
    assert_eq!(
        FalEditor::extract_image_url(&shape),
        Some("https://img.example/three.png".to_string())
    );

    // Nothing present: no reference.
    let shape = FalResponseShape { image: None, images: vec![], result: None };
    assert_eq!(FalEditor::extract_image_url(&shape), None);
}

#[test]
fn test_resolve_fal_result_downloads_http_url() {
    let shape = FalResponseShape {
        image: Some("https://img.example/out.png".to_string()),
        images: vec![],
        result: None,
    };
    match FalEditor::resolve_fal_result(&shape).unwrap() {
        FalResultAction::Download(url) => assert_eq!(url, "https://img.example/out.png"),
        _ => panic!("expected a download action"),
    }
}

#[test]
fn test_resolve_fal_result_decodes_data_uri() {
    let bytes = b"\x89PNG\r\n\x1a\nresult".to_vec();
    let uri = FalEditor::bytes_to_data_uri(&bytes);
    let shape = FalResponseShape { image: Some(uri), images: vec![], result: None };
    match FalEditor::resolve_fal_result(&shape).unwrap() {
        FalResultAction::Decoded(out) => assert_eq!(out, bytes),
        _ => panic!("expected decoded bytes"),
    }
}

#[test]
fn test_resolve_fal_result_no_url() {
    let shape = FalResponseShape { image: None, images: vec![], result: None };
    let err = FalEditor::resolve_fal_result(&shape).unwrap_err();
    assert!(matches!(err, AppError::ProviderError(_)));
    assert_eq!(err.message(), "Provider error: No image URL found in Fal.ai response");
}

#[test]
fn test_check_submit_status() {
    assert!(FalEditor::check_submit_status(200, String::new()).is_ok());
    assert!(FalEditor::check_submit_status(201, String::new()).is_ok());
    let err = FalEditor::check_submit_status(422, "bad input".to_string()).unwrap_err();
    assert_eq!(err.message(), "Provider error: Fal.ai API returned error 422: bad input");
    assert!(FalEditor::check_submit_status(500, String::new()).is_err());
}

#[test]
fn test_accept_download() {
    assert_eq!(FalEditor::accept_download(200, vec![1, 2]).unwrap(), vec![1, 2]);
    assert_eq!(FalEditor::accept_download(204, vec![]).unwrap(), vec![]);
    // A failed download names the HTTP status.
    let err = FalEditor::accept_download(404, vec![1]).unwrap_err();
    assert_eq!(err.message(), "Provider error: Failed to download image: HTTP 404");
    assert!(FalEditor::accept_download(500, vec![1]).is_err());
}

#[test]
fn test_guess_mime_jpeg() {
    let jpeg_bytes = vec![0xFF, 0xD8, 0xFF, 0xE0];
    assert_eq!(GoogleNanaBananaEditor::guess_mime(&jpeg_bytes), "image/jpeg");
}

#[test]
fn test_guess_mime_png() {
    let png_bytes = vec![0x89, 0x50, 0x4E, 0x47, 0x0D, 0x0A, 0x1A, 0x0A];
    assert_eq!(GoogleNanaBananaEditor::guess_mime(&png_bytes), "image/png");
}

#[test]
fn test_guess_mime_gif() {
    let gif_bytes = b"GIF89a".to_vec();
    assert_eq!(GoogleNanaBananaEditor::guess_mime(&gif_bytes), "image/gif");
}

#[test]
fn test_guess_mime_webp() {
    let mut webp_bytes = b"RIFF".to_vec();
    webp_bytes.extend_from_slice(&[0, 0, 0, 0]); // File size placeholder
    webp_bytes.extend_from_slice(b"WEBP");
    assert_eq!(GoogleNanaBananaEditor::guess_mime(&webp_bytes), "image/webp");
}

#[test]
fn test_guess_mime_unknown() {
    let unknown_bytes = vec![0x00, 0x01, 0x02];
    assert_eq!(
        GoogleNanaBananaEditor::guess_mime(&unknown_bytes),
        "application/octet-stream"
    );
}

#[test]
fn test_guess_mime_empty() {
    let empty_bytes = vec![];
    assert_eq!(
        GoogleNanaBananaEditor::guess_mime(&empty_bytes),
        "application/octet-stream"
    );
}

#[test]
fn test_google_editor_development_fallback() {
    let editor = GoogleNanaBananaEditor::new(&make_config_no_keys());
    let input = b"\x89PNG\r\n\x1a\noriginal".to_vec();
    match editor.prepare_edit(input.clone(), "prompt") {
        GoogleEditStep::Unchanged(out) => assert_eq!(out, input),
        _ => panic!("expected the development fallback"),
    }
}

#[test]
fn test_google_editor_prepares_chat_call() {
    let editor = GoogleNanaBananaEditor::new(&make_test_config());
    let input = b"\x89PNG\r\n\x1a\noriginal".to_vec();
    match editor.prepare_edit(input.clone(), "make it blue") {
        GoogleEditStep::Submit(call) => {
            assert_eq!(call.model_id, "test-model");
            assert_eq!(call.api_key, "test-google-key");
            assert_eq!(call.mime, "image/png");
            assert_eq!(call.prompt, "make it blue");
            let expected =
                base64::Engine::encode(&base64::engine::general_purpose::STANDARD, &input);
            assert_eq!(call.image_base64, expected);
        },
        _ => panic!("expected a chat call"),
    }
}

#[test]
fn test_google_finish_edit_takes_last_part() {
    let first = base64::Engine::encode(&base64::engine::general_purpose::STANDARD, b"first");
    let last = base64::Engine::encode(&base64::engine::general_purpose::STANDARD, b"last");
    let out = GoogleNanaBananaEditor::finish_edit(&vec![first, last]).unwrap();
    assert_eq!(out, b"last".to_vec());
}

#[test]
fn test_google_finish_edit_no_image() {
    let err = GoogleNanaBananaEditor::finish_edit(&vec![]).unwrap_err();
    assert_eq!(err.message(), "Provider error: No edited image returned from Gemini stream");
}

#[test]
fn test_google_finish_edit_bad_base64() {
    let err = GoogleNanaBananaEditor::finish_edit(&vec!["%%%".to_string()]).unwrap_err();
    assert_eq!(err.message(), "Provider error: Failed to decode base64 image data");
}
