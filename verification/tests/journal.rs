use journal_ai::journal::{
    create_entry_dry_run, interpret_tool_output, normalize_entry_title, JournalError,
};
use journal_ai::orchestrator::{
    apply_overrides, availability_gate, select_backend, BackendChoice, GateDecision,
    OrchestratorError,
};
use journal_ai::config::Config;
use journal_ai::text::{str_equal, u16_to_string};

#[test]
fn test_create_entry_dry_run() {
    let result = create_entry_dry_run("test-title", "Test content");
    assert!(result.is_ok());
    let output = result.unwrap();
    assert!(output.contains("test-title.md"));
    assert!(output.contains("Test content"));
}

#[test]
fn test_title_with_md_extension() {
    let result = create_entry_dry_run("test.md", "Content");
    assert!(result.is_ok());
    let output = result.unwrap();
    assert!(output.contains("test.md"));
    assert!(!output.contains("test.md.md")); // Should not double the extension
}

#[test]
fn test_normalize_entry_title() {
    assert_eq!(normalize_entry_title("note"), "note.md");
    assert_eq!(normalize_entry_title("note.md"), "note.md");
    assert_eq!(normalize_entry_title(""), ".md");
}

#[test]
fn test_interpret_tool_output() {
    assert_eq!(
        interpret_tool_output(true, "  /path/to/entry.md\n", ""),
        Ok("/path/to/entry.md".to_string())
    );
    match interpret_tool_output(false, "", "disk full") {
        Err(JournalError::ExternalToolFailed(msg)) => {
            assert_eq!(msg, "disk full");
            let err = JournalError::ExternalToolFailed(msg);
            assert_eq!(err.describe(), "file-journal failed: disk full");
        }
        other => panic!("expected tool failure, got {other:?}"),
    }
}

#[test]
fn test_select_backend() {
    assert_eq!(select_backend("ollama"), Ok(BackendChoice::Local));
    assert_eq!(select_backend("openai"), Ok(BackendChoice::Cloud));
    match select_backend("gemini") {
        Err(OrchestratorError::UnknownProvider(p)) => {
            assert_eq!(p, "gemini");
            let err = OrchestratorError::UnknownProvider(p);
            assert_eq!(
                err.describe(),
                "Unknown provider: gemini. Use 'ollama' or 'openai'"
            );
        }
        other => panic!("expected unknown provider, got {other:?}"),
    }
}

#[test]
fn test_availability_gate() {
    assert_eq!(
        availability_gate(BackendChoice::Local, true),
        GateDecision::Proceed
    );
    assert_eq!(
        availability_gate(BackendChoice::Cloud, true),
        GateDecision::Proceed
    );
    assert_eq!(
        availability_gate(BackendChoice::Local, false),
        GateDecision::WarnAndProceed
    );
    assert_eq!(
        availability_gate(BackendChoice::Cloud, false),
        GateDecision::Abort
    );
}

#[test]
fn test_apply_overrides() {
    let mut config = Config::default();
    apply_overrides(&mut config, Some("openai".to_string()), Some("gpt-4".to_string()));
    assert_eq!(config.provider, "openai");
    assert_eq!(config.openai.model, "gpt-4");
    assert_eq!(config.ollama.model, "llama3.2");

    let mut config = Config::default();
    apply_overrides(&mut config, None, Some("mistral".to_string()));
    assert_eq!(config.provider, "ollama");
    assert_eq!(config.ollama.model, "mistral");
    assert_eq!(config.openai.model, "gpt-4o-mini");

    let mut config = Config::default();
    apply_overrides(&mut config, Some("other".to_string()), Some("m".to_string()));
    assert_eq!(config.provider, "other");
    assert_eq!(config.ollama.model, "llama3.2");
    assert_eq!(config.openai.model, "gpt-4o-mini");
}

#[test]
fn test_u16_to_string() {
    assert_eq!(u16_to_string(0), "0");
    assert_eq!(u16_to_string(7), "7");
    assert_eq!(u16_to_string(404), "404");
    assert_eq!(u16_to_string(65535), "65535");
}

#[test]
fn test_str_equal() {
    assert!(str_equal("", ""));
    assert!(str_equal("abc", "abc"));
    assert!(!str_equal("abc", "abd"));
    assert!(!str_equal("abc", "abcd"));
    assert!(str_equal("naïve", "naïve"));
}
