//! Effective configuration: which backend is selected and how to reach it.
//!
//! A configuration is resolved once per invocation from layered sources
//! (explicit override, project-local file, user-global file, built-in
//! defaults); only the first existing source is read. The cloud credential
//! is layered in from the environment afterwards and is never written back
//! to durable storage.

use vstd::prelude::*;

verus! {

/// The resolved, immutable configuration for one invocation.
#[derive(Debug, Clone)]
pub struct Config {
    pub provider: String,
    pub ollama: OllamaConfig,
    pub openai: OpenAiConfig,
}

/// Connection parameters for the local (Ollama) backend.
#[derive(Debug, Clone)]
pub struct OllamaConfig {
    pub base_url: String,
    pub model: String,
}

/// Connection parameters for the cloud (OpenAI) backend.
/// The credential is only ever sourced from the environment or from
/// interactive entry; `persistable` strips it before anything is saved.
#[derive(Debug, Clone)]
pub struct OpenAiConfig {
    pub base_url: String,
    pub model: String,
    pub api_key: Option<String>,
}

/// Backend selected when no configuration names one.
pub fn default_provider() -> (r: String)
    ensures
        r@ == "ollama"@,
{
    String::from_str("ollama")
}

/// Endpoint used for the local backend when none is configured.
pub fn default_ollama_url() -> (r: String)
    ensures
        r@ == "http://localhost:11434"@,
{
    String::from_str("http://localhost:11434")
}

/// Model used for the local backend when none is configured.
pub fn default_ollama_model() -> (r: String)
    ensures
        r@ == "llama3.2"@,
{
    String::from_str("llama3.2")
}

/// Endpoint used for the cloud backend when none is configured.
pub fn default_openai_url() -> (r: String)
    ensures
        r@ == "https://api.openai.com/v1"@,
{
    String::from_str("https://api.openai.com/v1")
}

/// Model used for the cloud backend when none is configured.
pub fn default_openai_model() -> (r: String)
    ensures
        r@ == "gpt-4o-mini"@,
{
    String::from_str("gpt-4o-mini")
}

/// The local backend's built-in default parameters.
pub open spec fn is_default_ollama(c: OllamaConfig) -> bool {
    &&& c.base_url@ == "http://localhost:11434"@
    &&& c.model@ == "llama3.2"@
}

/// The cloud backend's built-in default parameters, apart from the credential.
pub open spec fn is_default_openai_base(c: OpenAiConfig) -> bool {
    &&& c.base_url@ == "https://api.openai.com/v1"@
    &&& c.model@ == "gpt-4o-mini"@
}

impl Default for OllamaConfig {
    fn default() -> (c: OllamaConfig)
        ensures
            is_default_ollama(c),
    {
        OllamaConfig { base_url: default_ollama_url(), model: default_ollama_model() }
    }
}

impl Default for OpenAiConfig {
    fn default() -> (c: OpenAiConfig)
        ensures
            is_default_openai_base(c),
            c.api_key is None,
    {
        OpenAiConfig {
            base_url: default_openai_url(),
            model: default_openai_model(),
            api_key: None,
        }
    }
}

/// The fields a config file may carry for the local backend, before
/// defaulting. A missing field is `None`.
#[derive(Debug, Clone)]
pub struct OllamaDoc {
    pub base_url: Option<String>,
    pub model: Option<String>,
}

/// The fields a config file may carry for the cloud backend, before
/// defaulting.
#[derive(Debug, Clone)]
pub struct OpenAiDoc {
    pub base_url: Option<String>,
    pub model: Option<String>,
    pub api_key: Option<String>,
}

/// A config file as found on disk: every field optional, nothing defaulted.
#[derive(Debug, Clone)]
pub struct ConfigDoc {
    pub provider: Option<String>,
    pub ollama: Option<OllamaDoc>,
    pub openai: Option<OpenAiDoc>,
}

/// Errors of configuration resolution.
#[derive(Debug, Clone, PartialEq, Eq)]
pub enum ConfigError {
    /// A config file was found but is not valid structured text in the
    /// expected schema. Carries the parser's diagnostic.
    ConfigParseError(String),
    /// The user-global config path cannot be determined and no other source
    /// exists.
    HomeResolutionError,
}

/// Where the effective configuration is read from: the first existing
/// source in precedence order, or the built-in defaults.
#[derive(Debug, Clone, Copy, PartialEq, Eq, Structural)]
pub enum ConfigSource {
    Explicit,
    ProjectLocal,
    UserGlobal,
    BuiltInDefaults,
}

/// Pick the configuration source. Only the first existing source in the
/// order explicit > project-local > user-global > defaults is read; when
/// the user-global path cannot be determined and neither the explicit nor
/// the project-local file exists, resolution fails.
pub fn select_source(
    explicit_given: bool,
    explicit_exists: bool,
    project_exists: bool,
    home_known: bool,
    global_exists: bool,
) -> (r: Result<ConfigSource, ConfigError>)
    ensures
        explicit_given && explicit_exists ==> r == Ok::<ConfigSource, ConfigError>(
            ConfigSource::Explicit,
        ),
        !(explicit_given && explicit_exists) && project_exists ==> r == Ok::<
            ConfigSource,
            ConfigError,
        >(ConfigSource::ProjectLocal),
        !(explicit_given && explicit_exists) && !project_exists && !home_known ==> r == Err::<
            ConfigSource,
            ConfigError,
        >(ConfigError::HomeResolutionError),
        !(explicit_given && explicit_exists) && !project_exists && home_known ==> r == Ok::<
            ConfigSource,
            ConfigError,
        >(if global_exists {
            ConfigSource::UserGlobal
        } else {
            ConfigSource::BuiltInDefaults
        }),
{
    if explicit_given && explicit_exists {
        Ok(ConfigSource::Explicit)
    } else if project_exists {
        Ok(ConfigSource::ProjectLocal)
    } else if !home_known {
        Err(ConfigError::HomeResolutionError)
    } else if global_exists {
        Ok(ConfigSource::UserGlobal)
    } else {
        Ok(ConfigSource::BuiltInDefaults)
    }
}

impl Default for Config {
    fn default() -> (c: Config)
        ensures
            c.provider@ == "ollama"@,
            is_default_ollama(c.ollama),
            is_default_openai_base(c.openai),
            c.openai.api_key is None,
    {
        Config {
            provider: default_provider(),
            ollama: OllamaConfig::default(),
            openai: OpenAiConfig::default(),
        }
    }
}

/// The provider named by the loaded file, when it names one.
pub open spec fn doc_provider(doc: Option<ConfigDoc>) -> Option<String> {
    match doc {
        Some(d) => d.provider,
        None => None,
    }
}

/// The local-backend section of the loaded file, when there is one.
pub open spec fn doc_ollama(doc: Option<ConfigDoc>) -> Option<OllamaDoc> {
    match doc {
        Some(d) => d.ollama,
        None => None,
    }
}

/// The cloud-backend section of the loaded file, when there is one.
pub open spec fn doc_openai(doc: Option<ConfigDoc>) -> Option<OpenAiDoc> {
    match doc {
        Some(d) => d.openai,
        None => None,
    }
}

/// The credential carried by the loaded file, when it carries one.
pub open spec fn file_api_key(doc: Option<ConfigDoc>) -> Option<String> {
    match doc_openai(doc) {
        Some(o) => o.api_key,
        None => None,
    }
}

/// The local-backend parameters, with every missing field defaulted.
pub open spec fn ollama_resolved_from(c: OllamaConfig, doc: Option<OllamaDoc>) -> bool {
    match doc {
        Some(d) => {
            &&& c.base_url@ == (match d.base_url {
                Some(u) => u@,
                None => "http://localhost:11434"@,
            })
            &&& c.model@ == (match d.model {
                Some(m) => m@,
                None => "llama3.2"@,
            })
        },
        None => is_default_ollama(c),
    }
}

/// The cloud-backend connection parameters, with every missing field
/// defaulted; the credential is stated separately.
pub open spec fn openai_base_resolved_from(c: OpenAiConfig, doc: Option<OpenAiDoc>) -> bool {
    match doc {
        Some(d) => {
            &&& c.base_url@ == (match d.base_url {
                Some(u) => u@,
                None => "https://api.openai.com/v1"@,
            })
            &&& c.model@ == (match d.model {
                Some(m) => m@,
                None => "gpt-4o-mini"@,
            })
        },
        None => is_default_openai_base(c),
    }
}

/// The credential layering rule: a credential in the loaded file wins;
/// otherwise the environment value (present or not) is taken.
pub open spec fn credential_resolved(
    key: Option<String>,
    file_key: Option<String>,
    env_key: Option<String>,
) -> bool {
    match file_key {
        Some(k) => key == Some(k),
        None => key == env_key,
    }
}

/// The whole resolution contract: what the effective configuration holds,
/// given the loaded file (if any was found) and the environment credential.
pub open spec fn spec_resolved(c: Config, doc: Option<ConfigDoc>, env_key: Option<String>) -> bool {
    &&& c.provider@ == (match doc_provider(doc) {
        Some(p) => p@,
        None => "ollama"@,
    })
    &&& ollama_resolved_from(c.ollama, doc_ollama(doc))
    &&& openai_base_resolved_from(c.openai, doc_openai(doc))
    &&& credential_resolved(c.openai.api_key, file_api_key(doc), env_key)
}

/// Build the effective configuration from the loaded file (already parsed,
/// `None` when no source was found) and the environment credential. Every
/// missing field takes its built-in default; the credential comes from the
/// file when the file has one, else from the environment.
pub fn resolve_config(doc: Option<ConfigDoc>, env_api_key: Option<String>) -> (c: Config)
    ensures
        spec_resolved(c, doc, env_api_key),
{
    let (provider, ollama_doc, openai_doc) = match doc {
        Some(d) => (d.provider, d.ollama, d.openai),
        None => (None, None, None),
    };
    let provider = match provider {
        Some(p) => p,
        None => default_provider(),
    };
    let ollama = match ollama_doc {
        Some(d) => OllamaConfig {
            base_url: match d.base_url {
                Some(u) => u,
                None => default_ollama_url(),
            },
            model: match d.model {
                Some(m) => m,
                None => default_ollama_model(),
            },
        },
        None => OllamaConfig::default(),
    };
    let openai = match openai_doc {
        Some(d) => OpenAiConfig {
            base_url: match d.base_url {
                Some(u) => u,
                None => default_openai_url(),
            },
            model: match d.model {
                Some(m) => m,
                None => default_openai_model(),
            },
            api_key: match d.api_key {
                Some(k) => Some(k),
                None => env_api_key,
            },
        },
        None => OpenAiConfig {
            base_url: default_openai_url(),
            model: default_openai_model(),
            api_key: env_api_key,
        },
    };
    Config { provider, ollama, openai }
}

/// With no config file found and no environment credential, resolution
/// yields the built-in defaults: the local backend selected and no
/// credential set.
pub proof fn lemma_resolve_defaults(c: Config)
    requires
        spec_resolved(c, None, None),
    ensures
        c.provider@ == "ollama"@,
        is_default_ollama(c.ollama),
        is_default_openai_base(c.openai),
        c.openai.api_key is None,
{
}

/// With the environment credential set and no credential in the loaded
/// file, the resolved cloud credential equals the environment value.
pub proof fn lemma_env_credential(c: Config, doc: Option<ConfigDoc>, env_key: Option<String>)
    requires
        spec_resolved(c, doc, env_key),
        file_api_key(doc) is None,
    ensures
        c.openai.api_key == env_key,
{
}

/// What interactive setup hands to durable storage: the same configuration
/// with the credential field omitted. Credentials are never persisted.
pub fn persistable(c: &Config) -> (r: Config)
    ensures
        r.provider == c.provider,
        r.ollama == c.ollama,
        r.openai.base_url == c.openai.base_url,
        r.openai.model == c.openai.model,
        r.openai.api_key is None,
{
    Config {
        provider: c.provider.clone(),
        ollama: OllamaConfig {
            base_url: c.ollama.base_url.clone(),
            model: c.ollama.model.clone(),
        },
        openai: OpenAiConfig {
            base_url: c.openai.base_url.clone(),
            model: c.openai.model.clone(),
            api_key: None,
        },
    }
}

/// The provider picked in interactive setup: entering `2` selects the cloud
/// backend, anything else the local one. `choice` is the entered line,
/// already trimmed.
pub fn provider_from_choice(choice: &str) -> (r: String)
    ensures
        choice@ == "2"@ ==> r@ == "openai"@,
        choice@ != "2"@ ==> r@ == "ollama"@,
{
    proof {
        reveal_strlit("2");
    }
    let is_two = choice.unicode_len() == 1 && choice.get_char(0) == '2';
    proof {
        if is_two {
            assert(choice@ =~= "2"@);
        }
    }
    if is_two {
        String::from_str("openai")
    } else {
        String::from_str("ollama")
    }
}

} // verus!
