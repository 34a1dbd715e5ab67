//! Orchestration decisions: which backend the configuration selects, how
//! command-line overrides change the configuration, and what the
//! availability probe's outcome means before generating. The surrounding
//! program performs the I/O these decisions call for.

use crate::config::Config;
use crate::text::str_equal;
use vstd::prelude::*;

verus! {

/// The backend a configuration selects.
#[derive(Debug, Clone, Copy, PartialEq, Eq, Structural)]
pub enum BackendChoice {
    Local,
    Cloud,
}

/// Errors of orchestration itself.
#[derive(Debug, Clone, PartialEq, Eq)]
pub enum OrchestratorError {
    /// The configuration names a provider that is neither backend.
    UnknownProvider(String),
}

impl OrchestratorError {
    /// A user-facing message naming the unknown provider.
    pub fn describe(&self) -> (r: String)
        ensures
            self matches OrchestratorError::UnknownProvider(p) ==> r@ == "Unknown provider: "@ + p@
                + ". Use 'ollama' or 'openai'"@,
    {
        match self {
            OrchestratorError::UnknownProvider(p) => {
                let mut r = String::from_str("Unknown provider: ");
                r.append(p.as_str());
                r.append(". Use 'ollama' or 'openai'");
                r
            },
        }
    }
}

/// Select the backend the configuration names: `ollama` is the local
/// backend, `openai` the cloud one; anything else is rejected.
pub fn select_backend(provider: &str) -> (r: Result<BackendChoice, OrchestratorError>)
    ensures
        provider@ == "ollama"@ ==> r == Ok::<BackendChoice, OrchestratorError>(
            BackendChoice::Local,
        ),
        provider@ == "openai"@ ==> r == Ok::<BackendChoice, OrchestratorError>(
            BackendChoice::Cloud,
        ),
        provider@ != "ollama"@ && provider@ != "openai"@ ==> (r matches Err(e)
            && e matches OrchestratorError::UnknownProvider(p) && p@ == provider@),
{
    proof {
        reveal_strlit("ollama");
        reveal_strlit("openai");
        assert("ollama"@[1] != "openai"@[1]);
    }
    if str_equal(provider, "ollama") {
        Ok(BackendChoice::Local)
    } else if str_equal(provider, "openai") {
        Ok(BackendChoice::Cloud)
    } else {
        Err(OrchestratorError::UnknownProvider(String::from_str(provider)))
    }
}

/// Apply the command-line overrides: a given provider replaces the
/// configured one, and a given model replaces the model of the backend the
/// (possibly overridden) provider names. A model override under an unknown
/// provider is ignored. Connection endpoints and the credential are never
/// touched.
pub fn apply_overrides(config: &mut Config, provider: Option<String>, model: Option<String>)
    ensures
        final(config).provider == (match provider {
            Some(p) => p,
            None => old(config).provider,
        }),
        final(config).ollama.base_url == old(config).ollama.base_url,
        final(config).openai.base_url == old(config).openai.base_url,
        final(config).openai.api_key == old(config).openai.api_key,
        match model {
            Some(m) => {
                if final(config).provider@ == "ollama"@ {
                    &&& final(config).ollama.model == m
                    &&& final(config).openai.model == old(config).openai.model
                } else if final(config).provider@ == "openai"@ {
                    &&& final(config).openai.model == m
                    &&& final(config).ollama.model == old(config).ollama.model
                } else {
                    &&& final(config).ollama.model == old(config).ollama.model
                    &&& final(config).openai.model == old(config).openai.model
                }
            },
            None => {
                &&& final(config).ollama.model == old(config).ollama.model
                &&& final(config).openai.model == old(config).openai.model
            },
        },
{
    if let Some(p) = provider {
        config.provider = p;
    }
    if let Some(m) = model {
        if str_equal(config.provider.as_str(), "ollama") {
            config.ollama.model = m;
        } else if str_equal(config.provider.as_str(), "openai") {
            config.openai.model = m;
        }
    }
}

/// What to do with the availability probe's outcome before generating: for
/// the local backend the probe is advisory (proceed, with a warning when it
/// failed); for the cloud backend it is a hard gate.
#[derive(Debug, Clone, Copy, PartialEq, Eq, Structural)]
pub enum GateDecision {
    Proceed,
    WarnAndProceed,
    Abort,
}

/// The availability gate.
pub fn availability_gate(backend: BackendChoice, available: bool) -> (r: GateDecision)
    ensures
        available ==> r == GateDecision::Proceed,
        !available && backend == BackendChoice::Local ==> r == GateDecision::WarnAndProceed,
        !available && backend == BackendChoice::Cloud ==> r == GateDecision::Abort,
{
    if available {
        GateDecision::Proceed
    } else {
        match backend {
            BackendChoice::Local => GateDecision::WarnAndProceed,
            BackendChoice::Cloud => GateDecision::Abort,
        }
    }
}

} // verus!
