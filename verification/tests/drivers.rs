use journal_ai::config::{OllamaConfig, OpenAiConfig};
use journal_ai::providers::ollama::OllamaProvider;
use journal_ai::providers::openai::OpenAiProvider;
use journal_ai::providers::{parse_generation_payload, validate_fields, DriverError};

fn ollama_config() -> OllamaConfig {
    OllamaConfig {
        base_url: "http://localhost:11434".to_string(),
        model: "llama3.2".to_string(),
    }
}

fn openai_config(key: Option<&str>) -> OpenAiConfig {
    OpenAiConfig {
        base_url: "https://api.openai.com/v1".to_string(),
        model: "gpt-4o-mini".to_string(),
        api_key: key.map(|k| k.to_string()),
    }
}

#[test]
fn test_build_prompt() {
    let prompt = OllamaProvider::build_prompt("Meeting with team");
    assert!(prompt.contains("Fix grammar"));
    assert!(prompt.contains("Meeting with team"));
    assert!(prompt.contains("JSON"));
    assert!(prompt.contains("NEVER translate"));
}

#[test]
fn test_build_messages() {
    let messages = OpenAiProvider::build_messages("Test input", None);
    assert_eq!(messages.len(), 2);
    assert_eq!(messages[0].role, "system");
    assert_eq!(messages[1].role, "user");
    assert!(messages[1].content.contains("Test input"));
}

#[test]
fn test_custom_system_prompt() {
    let messages = OpenAiProvider::build_messages("Test", Some("Custom prompt"));
    assert_eq!(messages[0].content, "Custom prompt");
}

#[test]
fn test_ollama_request_envelope() {
    let provider = OllamaProvider::new(ollama_config());
    let request = provider.build_request("note", Some("be brief"));
    assert_eq!(request.model, "llama3.2");
    assert!(request.prompt.contains("note"));
    assert_eq!(request.system, Some("be brief".to_string()));
    assert!(!request.stream);
    assert_eq!(request.format, Some("json".to_string()));
    assert_eq!(provider.build_request("note", None).system, None);
}

#[test]
fn test_openai_request_envelopes() {
    let provider = OpenAiProvider::new(openai_config(Some("sk-test"))).unwrap();
    let generate = provider.build_generate_request("note", None);
    assert_eq!(generate.model, "gpt-4o-mini");
    assert_eq!(generate.messages.len(), 2);
    assert_eq!(generate.response_format, Some("json_object".to_string()));
    let summarize = provider.build_summarize_request("note");
    assert_eq!(summarize.messages.len(), 2);
    assert_eq!(summarize.messages[1].content, "note");
    assert_eq!(summarize.response_format, None);
}

#[test]
fn test_authorization_value() {
    let provider = OpenAiProvider::new(openai_config(Some("sk-test"))).unwrap();
    assert_eq!(
        provider.authorization_value(),
        Some("Bearer sk-test".to_string())
    );
    let bare = OpenAiProvider { config: openai_config(None) };
    assert_eq!(bare.authorization_value(), None);
}

#[test]
fn test_missing_credential_fails_fast() {
    let result = OpenAiProvider::new(openai_config(None));
    assert!(matches!(result, Err(DriverError::MissingCredential)));
}

#[test]
fn test_credential_present_constructs() {
    let provider = OpenAiProvider::new(openai_config(Some("sk-test"))).unwrap();
    assert!(provider.is_available());
}

#[test]
fn test_ollama_urls() {
    let provider = OllamaProvider::new(ollama_config());
    assert_eq!(provider.generate_url(), "http://localhost:11434/api/generate");
    assert_eq!(provider.probe_url(), "http://localhost:11434/api/tags");
}

#[test]
fn test_probe_interpretation() {
    assert!(OllamaProvider::probe_indicates_available(Some(200)));
    assert!(OllamaProvider::probe_indicates_available(Some(204)));
    assert!(!OllamaProvider::probe_indicates_available(Some(404)));
    assert!(!OllamaProvider::probe_indicates_available(Some(500)));
    assert!(!OllamaProvider::probe_indicates_available(None));
}

#[test]
fn test_missing_fields_is_malformed_with_payload() {
    let raw = "{\"content\": \"only content\"}";
    let result = parse_generation_payload(raw);
    match result {
        Err(DriverError::MalformedResponse { payload }) => {
            assert_eq!(payload, raw);
            let err = DriverError::MalformedResponse { payload };
            assert!(err.describe().contains(raw));
        }
        other => panic!("expected malformed response, got {other:?}"),
    }
}

#[test]
fn test_absent_tags_normalized_to_empty() {
    let raw = "{\"title\": \"A Note\", \"content\": \"cleaned text\"}";
    let result = parse_generation_payload(raw).unwrap();
    assert_eq!(result.title, "a-note.md");
    assert_eq!(result.content, "cleaned text");
    assert!(result.tags.is_empty());
}

#[test]
fn test_payload_happy_path() {
    let raw = "{\"title\": \"My Day: Part/One\", \"content\": \"All good.\", \"tags\": [\"day\", \"one\"]}";
    let result = parse_generation_payload(raw).unwrap();
    assert_eq!(result.title, "my-day-part-one.md");
    assert_eq!(result.content, "All good.");
    assert_eq!(result.tags, vec!["day".to_string(), "one".to_string()]);
}

#[test]
fn test_payload_not_json_is_malformed() {
    let raw = "no json here";
    match parse_generation_payload(raw) {
        Err(DriverError::MalformedResponse { payload }) => assert_eq!(payload, raw),
        other => panic!("expected malformed response, got {other:?}"),
    }
}

#[test]
fn test_too_many_tags_rejected() {
    let result = validate_fields(
        Some("t".to_string()),
        Some("c".to_string()),
        Some(vec![
            "a".to_string(),
            "b".to_string(),
            "c".to_string(),
            "d".to_string(),
        ]),
        "raw",
    );
    assert!(matches!(result, Err(DriverError::MalformedResponse { .. })));
}

#[test]
fn test_empty_title_rejected() {
    let result = validate_fields(Some("".to_string()), Some("c".to_string()), None, "raw");
    assert!(matches!(result, Err(DriverError::MalformedResponse { .. })));
}

#[test]
fn test_ollama_rejected_status() {
    let result = OllamaProvider::handle_generate_response(500, "backend exploded");
    match result {
        Err(DriverError::BackendRejected { status, message }) => {
            assert_eq!(status, 500);
            assert_eq!(message, "backend exploded");
            let err = DriverError::BackendRejected { status, message };
            assert_eq!(
                err.describe(),
                "Backend API error 500: backend exploded"
            );
        }
        other => panic!("expected rejection, got {other:?}"),
    }
}

#[test]
fn test_ollama_generate_round_trip() {
    let body =
        "{\"response\": \"{\\\"title\\\": \\\"Team Meeting Notes\\\", \\\"content\\\": \\\"We met.\\\", \\\"tags\\\": [\\\"team\\\"]}\"}";
    let result = OllamaProvider::handle_generate_response(200, body).unwrap();
    assert_eq!(result.title, "team-meeting-notes.md");
    assert_eq!(result.content, "We met.");
    assert_eq!(result.tags, vec!["team".to_string()]);
}

#[test]
fn test_ollama_outer_shape_malformed() {
    let result = OllamaProvider::handle_generate_response(200, "{\"unexpected\": 3}");
    assert!(matches!(
        result,
        Err(DriverError::MalformedResponse { .. })
    ));
}

#[test]
fn test_openai_empty_choices() {
    let result = OpenAiProvider::completion_text(200, "{\"choices\": []}");
    assert!(matches!(result, Err(DriverError::EmptyCompletion)));
}

#[test]
fn test_openai_completion_round_trip() {
    let body = "{\"choices\": [{\"message\": {\"content\": \"summary text\"}}]}";
    let text = OpenAiProvider::completion_text(200, body).unwrap();
    assert_eq!(text, "summary text");
}

#[test]
fn test_openai_chat_round_trip() {
    let body =
        "{\"choices\": [{\"message\": {\"content\": \"{\\\"title\\\": \\\"Daily Log\\\", \\\"content\\\": \\\"Done.\\\", \\\"tags\\\": []}\"}}]}";
    let result = OpenAiProvider::handle_chat_response(200, body).unwrap();
    assert_eq!(result.title, "daily-log.md");
    assert_eq!(result.content, "Done.");
    assert!(result.tags.is_empty());
}

#[test]
fn test_openai_rejected_status() {
    let result = OpenAiProvider::handle_chat_response(401, "unauthorized");
    match result {
        Err(DriverError::BackendRejected { status, message }) => {
            assert_eq!(status, 401);
            assert_eq!(message, "unauthorized");
        }
        other => panic!("expected rejection, got {other:?}"),
    }
}

#[test]
fn test_summarize_messages() {
    let messages = OpenAiProvider::build_summarize_messages("my long entry");
    assert_eq!(messages.len(), 2);
    assert_eq!(messages[0].role, "system");
    assert!(messages[0].content.contains("summarizes journal entries"));
    assert_eq!(messages[1].content, "my long entry");
}

#[test]
fn test_unreachable_describe() {
    let err = DriverError::BackendUnreachable("connection refused".to_string());
    assert_eq!(
        err.describe(),
        "Failed to connect to backend: connection refused"
    );
}
