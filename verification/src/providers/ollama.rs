//! The local backend driver (Ollama generate-completion wire protocol).
//!
//! The driver holds only its connection parameters and decides everything
//! about a generation exchange: the prompt, the endpoint URLs, and how a
//! transport outcome (status and body, handed in as plain values) becomes a
//! generation result or an error.

use crate::config::OllamaConfig;
use crate::providers::json::{extract_response_field, response_field};
use crate::providers::{
    malformed, parse_generation_payload, payload_ok, resp_matches_payload, DriverError,
    LlmResponse,
};
use vstd::prelude::*;

verus! {

/// The local backend driver.
pub struct OllamaProvider {
    pub config: OllamaConfig,
}

/// The request envelope for one generation call, apart from the sampling
/// temperature (a float, supplied at the transport boundary).
pub struct OllamaRequestParams {
    pub model: String,
    pub prompt: String,
    pub system: Option<String>,
    pub stream: bool,
    pub format: Option<String>,
}

/// The combined instruction-plus-input prompt sent for one generation: the
/// strict preservation rules around the raw input.
pub open spec fn spec_ollama_prompt(input: Seq<char>) -> Seq<char> {
    "Fix grammar and structure this journal entry. Return JSON with title, content, and tags.\n\nInput: "@
        + input
        + "\n\nCRITICAL RULES:\n- NEVER translate the text - keep the EXACT same language as the input\n- NEVER add new information or content not in the original\n- ONLY fix spelling mistakes and grammar errors\n- ONLY improve sentence structure and formatting\n- Keep ALL original meaning and content intact\n- Title: 3-5 words describing the note, lowercase, hyphen-separated, ends with .md\n- Content: cleaned up version of the input with better formatting (paragraphs, bullet points if needed)\n- Tags: 0-3 relevant keywords from the content\n\nReturn ONLY valid JSON:\n{\"title\": \"short-descriptive-name.md\", \"content\": \"Cleaned up content here\", \"tags\": [\"tag1\", \"tag2\"]}"@
}

impl OllamaProvider {
    /// Construction never fails: the local backend needs no credential.
    pub fn new(config: OllamaConfig) -> (r: OllamaProvider)
        ensures
            r.config == config,
    {
        OllamaProvider { config }
    }

    /// Build the single instruction-plus-input prompt for a generation.
    pub fn build_prompt(user_input: &str) -> (r: String)
        ensures
            r@ == spec_ollama_prompt(user_input@),
    {
        let mut r = String::from_str(
            "Fix grammar and structure this journal entry. Return JSON with title, content, and tags.\n\nInput: ",
        );
        r.append(user_input);
        r.append(
            "\n\nCRITICAL RULES:\n- NEVER translate the text - keep the EXACT same language as the input\n- NEVER add new information or content not in the original\n- ONLY fix spelling mistakes and grammar errors\n- ONLY improve sentence structure and formatting\n- Keep ALL original meaning and content intact\n- Title: 3-5 words describing the note, lowercase, hyphen-separated, ends with .md\n- Content: cleaned up version of the input with better formatting (paragraphs, bullet points if needed)\n- Tags: 0-3 relevant keywords from the content\n\nReturn ONLY valid JSON:\n{\"title\": \"short-descriptive-name.md\", \"content\": \"Cleaned up content here\", \"tags\": [\"tag1\", \"tag2\"]}",
        );
        r
    }

    /// Build the whole request envelope for one generation: the configured
    /// model, the combined prompt, the caller's system instruction if any,
    /// incremental streaming disabled, and structured-output mode requested.
    pub fn build_request(&self, user_input: &str, system_prompt: Option<&str>) -> (r:
        OllamaRequestParams)
        ensures
            r.model == self.config.model,
            r.prompt@ == spec_ollama_prompt(user_input@),
            system_prompt matches Some(s) ==> (r.system matches Some(rs) && rs@ == s@),
            system_prompt is None ==> r.system is None,
            r.stream == false,
            r.format matches Some(f) && f@ == "json"@,
    {
        OllamaRequestParams {
            model: self.config.model.clone(),
            prompt: Self::build_prompt(user_input),
            system: match system_prompt {
                Some(s) => Some(String::from_str(s)),
                None => None,
            },
            stream: false,
            format: Some(String::from_str("json")),
        }
    }

    /// URL of the generation endpoint.
    pub fn generate_url(&self) -> (r: String)
        ensures
            r@ == self.config.base_url@ + "/api/generate"@,
    {
        let mut r = self.config.base_url.clone();
        r.append("/api/generate");
        r
    }

    /// URL of the liveness probe.
    pub fn probe_url(&self) -> (r: String)
        ensures
            r@ == self.config.base_url@ + "/api/tags"@,
    {
        let mut r = self.config.base_url.clone();
        r.append("/api/tags");
        r
    }

    /// Interpret the probe's transport outcome: available exactly when a
    /// response arrived with a success status. Any ambiguity counts as
    /// unavailable.
    pub fn probe_indicates_available(status: Option<u16>) -> (r: bool)
        ensures
            r == (status matches Some(s) && 200 <= s < 300),
    {
        match status {
            Some(s) => 200 <= s && s < 300,
            None => false,
        }
    }

    /// Turn a generation response (status and body, as the transport handed
    /// them back) into a result. A non-success status is rejected with the
    /// backend's own message. On a success status the body must be a JSON
    /// object whose `response` field embeds the structured result as text:
    /// the call succeeds exactly when that embedded payload is valid, and a
    /// failure is a malformed-response error carrying the offending text
    /// (the embedded payload when there is one, else the whole body).
    pub fn handle_generate_response(status: u16, body: &str) -> (r: Result<
        LlmResponse,
        DriverError,
    >)
        ensures
            !(200 <= status < 300) ==> (r matches Err(e) && e matches DriverError::BackendRejected {
                status: st,
                message,
            } && st == status && message@ == body@),
            200 <= status < 300 ==> {
                &&& (r is Ok <==> (response_field(body@) matches Some(p) && payload_ok(p)))
                &&& (r matches Ok(resp) ==> (response_field(body@) matches Some(p)
                    && resp_matches_payload(resp, p)))
                &&& (r matches Err(e) ==> (e matches DriverError::MalformedResponse { payload }
                    && payload@ == (match response_field(body@) {
                        Some(p) => p,
                        None => body@,
                    })))
            },
    {
        if !(200 <= status && status < 300) {
            return Err(
                DriverError::BackendRejected { status, message: String::from_str(body) },
            );
        }
        let payload = match extract_response_field(body) {
            Some(p) => p,
            None => {
                return Err(malformed(body));
            },
        };
        parse_generation_payload(payload.as_str())
    }
}

} // verus!
