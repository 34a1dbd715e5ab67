use journal_ai::config::{
    persistable, provider_from_choice, resolve_config, select_source, Config, ConfigDoc,
    ConfigError, ConfigSource, OllamaDoc, OpenAiDoc,
};

#[test]
fn test_default_config() {
    let config = Config::default();
    assert_eq!(config.provider, "ollama");
    assert_eq!(config.ollama.model, "llama3.2");
    assert_eq!(config.openai.model, "gpt-4o-mini");
}

#[test]
fn test_load_config_from_file() {
    let doc = ConfigDoc {
        provider: Some("openai".to_string()),
        ollama: Some(OllamaDoc {
            base_url: Some("http://localhost:11434".to_string()),
            model: Some("mistral".to_string()),
        }),
        openai: Some(OpenAiDoc {
            base_url: Some("https://api.openai.com/v1".to_string()),
            model: Some("gpt-4".to_string()),
            api_key: None,
        }),
    };
    let config = resolve_config(Some(doc), None);
    assert_eq!(config.provider, "openai");
    assert_eq!(config.ollama.model, "mistral");
    assert_eq!(config.openai.model, "gpt-4");
}

#[test]
fn test_load_api_key_from_env() {
    let config = resolve_config(None, Some("test-key-123".to_string()));
    assert_eq!(config.openai.api_key, Some("test-key-123".to_string()));
}

#[test]
fn test_resolve_no_file_no_env_yields_defaults() {
    let config = resolve_config(None, None);
    assert_eq!(config.provider, "ollama");
    assert_eq!(config.ollama.base_url, "http://localhost:11434");
    assert_eq!(config.ollama.model, "llama3.2");
    assert_eq!(config.openai.base_url, "https://api.openai.com/v1");
    assert_eq!(config.openai.model, "gpt-4o-mini");
    assert_eq!(config.openai.api_key, None);
}

#[test]
fn test_file_credential_wins_over_env() {
    let doc = ConfigDoc {
        provider: None,
        ollama: None,
        openai: Some(OpenAiDoc {
            base_url: None,
            model: None,
            api_key: Some("from-file".to_string()),
        }),
    };
    let config = resolve_config(Some(doc), Some("from-env".to_string()));
    assert_eq!(config.openai.api_key, Some("from-file".to_string()));
    // missing fields of a present section still take their defaults
    assert_eq!(config.openai.base_url, "https://api.openai.com/v1");
    assert_eq!(config.openai.model, "gpt-4o-mini");
}

#[test]
fn test_select_source_precedence() {
    // explicit wins when it exists
    assert_eq!(
        select_source(true, true, true, true, true),
        Ok(ConfigSource::Explicit)
    );
    // a given but missing explicit path falls through
    assert_eq!(
        select_source(true, false, true, true, true),
        Ok(ConfigSource::ProjectLocal)
    );
    assert_eq!(
        select_source(false, false, false, true, true),
        Ok(ConfigSource::UserGlobal)
    );
    assert_eq!(
        select_source(false, false, false, true, false),
        Ok(ConfigSource::BuiltInDefaults)
    );
}

#[test]
fn test_select_source_home_resolution_error() {
    assert_eq!(
        select_source(false, false, false, false, false),
        Err(ConfigError::HomeResolutionError)
    );
    // a found earlier source makes the unknown home irrelevant
    assert_eq!(
        select_source(false, false, true, false, false),
        Ok(ConfigSource::ProjectLocal)
    );
}

#[test]
fn test_persistable_strips_credential() {
    let mut config = Config::default();
    config.openai.api_key = Some("secret".to_string());
    let saved = persistable(&config);
    assert_eq!(saved.openai.api_key, None);
    assert_eq!(saved.provider, config.provider);
    assert_eq!(saved.openai.model, config.openai.model);
}

#[test]
fn test_provider_from_choice() {
    assert_eq!(provider_from_choice("2"), "openai");
    assert_eq!(provider_from_choice("1"), "ollama");
    assert_eq!(provider_from_choice(""), "ollama");
    assert_eq!(provider_from_choice("anything"), "ollama");
}
