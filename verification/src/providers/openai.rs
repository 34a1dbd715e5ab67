//! The cloud backend driver (OpenAI chat-completion wire protocol).
//!
//! The driver requires a credential at construction time and fails fast
//! without one. It decides the two-turn exchange (system instruction plus
//! user message), the endpoint URL, and how a transport outcome becomes a
//! generation result or an error.

use crate::config::OpenAiConfig;
use crate::providers::json::{chat_choice_count, chat_content, extract_chat_content};
use crate::providers::{
    malformed, parse_generation_payload, payload_ok, resp_matches_payload, DriverError,
    LlmResponse,
};
use vstd::prelude::*;

verus! {

/// The cloud backend driver.
pub struct OpenAiProvider {
    pub config: OpenAiConfig,
}

/// One chat message of the two-turn exchange.
#[derive(Debug, Clone)]
pub struct Message {
    pub role: String,
    pub content: String,
}

/// The request envelope for one chat call, apart from the sampling
/// temperature (a float, supplied at the transport boundary).
pub struct ChatRequestParams {
    pub model: String,
    pub messages: Vec<Message>,
    pub response_format: Option<String>,
}

/// The system instruction sent when the caller supplies none: the strict
/// preservation rules.
pub open spec fn spec_default_system_prompt() -> Seq<char> {
    "You ONLY fix grammar and formatting. NEVER translate. NEVER add commentary like 'here is' or summaries. NEVER add content not in original. Output ONLY cleaned text, nothing else."@
}

/// The user-role message: the raw input wrapped in the JSON-shape contract.
pub open spec fn spec_user_message(input: Seq<char>) -> Seq<char> {
    "Clean up this text. Fix spelling/grammar only.\n\nInput: "@ + input
        + "\n\nRULES:\n- Same language as input\n- NO added commentary or explanations\n- NO \"here is\" or \"summary\" text\n- NO new information\n- ONLY fix errors and formatting\n\nReturn JSON:\n{\"title\": \"name.md\", \"content\": \"cleaned text only\", \"tags\": []}"@
}

/// The system instruction used for summarizing.
pub open spec fn spec_summarize_system_prompt() -> Seq<char> {
    "You are a helpful assistant that summarizes journal entries. Be concise and highlight key points."@
}

/// The two-turn generation exchange: a system-role instruction (the
/// caller's, or the default preservation rules) and a user-role message
/// wrapping the input in the JSON-shape contract.
pub open spec fn generate_messages_wf(
    ms: Seq<Message>,
    input: Seq<char>,
    system: Option<Seq<char>>,
) -> bool {
    &&& ms.len() == 2
    &&& ms[0].role@ == "system"@
    &&& ms[0].content@ == (match system {
        Some(s) => s,
        None => spec_default_system_prompt(),
    })
    &&& ms[1].role@ == "user"@
    &&& ms[1].content@ == spec_user_message(input)
}

/// The two-turn summarize exchange: the fixed summarizer instruction and
/// the raw prompt verbatim.
pub open spec fn summarize_messages_wf(ms: Seq<Message>, prompt: Seq<char>) -> bool {
    &&& ms.len() == 2
    &&& ms[0].role@ == "system"@
    &&& ms[0].content@ == spec_summarize_system_prompt()
    &&& ms[1].role@ == "user"@
    &&& ms[1].content@ == prompt
}

impl OpenAiProvider {
    /// Construct the cloud driver. Requires a credential: fails fast with a
    /// missing-credential error when none is present, before any network
    /// access is attempted.
    pub fn new(config: OpenAiConfig) -> (r: Result<OpenAiProvider, DriverError>)
        ensures
            r is Ok <==> config.api_key is Some,
            r matches Ok(p) ==> p.config == config,
            config.api_key is None ==> r == Err::<OpenAiProvider, DriverError>(
                DriverError::MissingCredential,
            ),
    {
        if config.api_key.is_some() {
            Ok(OpenAiProvider { config })
        } else {
            Err(DriverError::MissingCredential)
        }
    }

    /// The availability probe: the cloud driver is available exactly when a
    /// credential is present. Never fails.
    pub fn is_available(&self) -> (r: bool)
        ensures
            r == (self.config.api_key is Some),
    {
        self.config.api_key.is_some()
    }

    /// The value of the Authorization header, when a credential is present:
    /// the bearer scheme carrying the credential verbatim.
    pub fn authorization_value(&self) -> (r: Option<String>)
        ensures
            self.config.api_key matches Some(k) ==> (r matches Some(h) && h@ == "Bearer "@ + k@),
            self.config.api_key is None ==> r is None,
    {
        match &self.config.api_key {
            Some(k) => {
                let mut h = String::from_str("Bearer ");
                h.append(k.as_str());
                Some(h)
            },
            None => None,
        }
    }

    /// Build the whole request envelope for one generation, apart from the
    /// temperature: the configured model, the two-turn exchange, and
    /// structured-output mode requested.
    pub fn build_generate_request(&self, user_input: &str, system_prompt: Option<&str>) -> (r:
        ChatRequestParams)
        ensures
            r.model == self.config.model,
            generate_messages_wf(
                r.messages@,
                user_input@,
                match system_prompt {
                    Some(s) => Some(s@),
                    None => None,
                },
            ),
            r.response_format matches Some(f) && f@ == "json_object"@,
    {
        ChatRequestParams {
            model: self.config.model.clone(),
            messages: Self::build_messages(user_input, system_prompt),
            response_format: Some(String::from_str("json_object")),
        }
    }

    /// Build the whole request envelope for one summarize exchange, apart
    /// from the temperature: the configured model, the two summarize
    /// messages, and no structured-output mode.
    pub fn build_summarize_request(&self, prompt: &str) -> (r: ChatRequestParams)
        ensures
            r.model == self.config.model,
            summarize_messages_wf(r.messages@, prompt@),
            r.response_format is None,
    {
        ChatRequestParams {
            model: self.config.model.clone(),
            messages: Self::build_summarize_messages(prompt),
            response_format: None,
        }
    }

    /// URL of the chat-completion endpoint.
    pub fn chat_url(&self) -> (r: String)
        ensures
            r@ == self.config.base_url@ + "/chat/completions"@,
    {
        let mut r = self.config.base_url.clone();
        r.append("/chat/completions");
        r
    }

    /// Build the two-turn exchange for a generation: a system-role
    /// instruction (the caller's, or the default preservation rules) and a
    /// user-role message carrying the input plus the JSON-shape contract.
    pub fn build_messages(user_input: &str, system_prompt: Option<&str>) -> (r: Vec<Message>)
        ensures
            generate_messages_wf(
                r@,
                user_input@,
                match system_prompt {
                    Some(s) => Some(s@),
                    None => None,
                },
            ),
    {
        let system_content = match system_prompt {
            Some(s) => String::from_str(s),
            None => String::from_str(
                "You ONLY fix grammar and formatting. NEVER translate. NEVER add commentary like 'here is' or summaries. NEVER add content not in original. Output ONLY cleaned text, nothing else.",
            ),
        };
        let mut user_content = String::from_str(
            "Clean up this text. Fix spelling/grammar only.\n\nInput: ",
        );
        user_content.append(user_input);
        user_content.append(
            "\n\nRULES:\n- Same language as input\n- NO added commentary or explanations\n- NO \"here is\" or \"summary\" text\n- NO new information\n- ONLY fix errors and formatting\n\nReturn JSON:\n{\"title\": \"name.md\", \"content\": \"cleaned text only\", \"tags\": []}",
        );
        let mut r: Vec<Message> = Vec::new();
        r.push(Message { role: String::from_str("system"), content: system_content });
        r.push(Message { role: String::from_str("user"), content: user_content });
        r
    }

    /// Build the two-turn exchange for summarizing: the fixed summarizer
    /// instruction and the raw prompt.
    pub fn build_summarize_messages(prompt: &str) -> (r: Vec<Message>)
        ensures
            summarize_messages_wf(r@, prompt@),
    {
        let mut r: Vec<Message> = Vec::new();
        r.push(
            Message {
                role: String::from_str("system"),
                content: String::from_str(
                    "You are a helpful assistant that summarizes journal entries. Be concise and highlight key points.",
                ),
            },
        );
        r.push(Message { role: String::from_str("user"), content: String::from_str(prompt) });
        r
    }

    /// Read the first completion choice's message content out of a chat
    /// response. A non-success status is rejected with the backend's own
    /// message. On a success status: the call succeeds with the content
    /// exactly when the first choice carries one; a body with a `choices`
    /// array of zero elements is exactly an empty completion; any other
    /// shape failure is a malformed response carrying the whole body. For a
    /// summarize exchange this text is the whole result; for a generation
    /// exchange it embeds the structured result (`handle_chat_response`).
    pub fn completion_text(status: u16, body: &str) -> (r: Result<String, DriverError>)
        ensures
            !(200 <= status < 300) ==> (r matches Err(e) && e matches DriverError::BackendRejected {
                status: st,
                message,
            } && st == status && message@ == body@),
            200 <= status < 300 ==> {
                &&& (r is Ok <==> chat_content(body@) is Some)
                &&& (r matches Ok(s) ==> chat_content(body@) == Some(s@))
                &&& ((r matches Err(e) && e is EmptyCompletion) <==> chat_choice_count(body@)
                    == Some(0int))
                &&& (r matches Err(e) ==> (e is EmptyCompletion
                    || (e matches DriverError::MalformedResponse { payload } && payload@
                    == body@)))
            },
    {
        if !(200 <= status && status < 300) {
            return Err(
                DriverError::BackendRejected { status, message: String::from_str(body) },
            );
        }
        let (count, content) = extract_chat_content(body);
        let n = match count {
            Some(n) => n,
            None => {
                return Err(malformed(body));
            },
        };
        if n == 0 {
            return Err(DriverError::EmptyCompletion);
        }
        match content {
            Some(c) => Ok(c),
            None => Err(malformed(body)),
        }
    }

    /// Turn a chat response into a generation result: the first choice's
    /// content embeds the structured result as text, and the call succeeds
    /// exactly when that embedded payload is valid. A failure on a success
    /// status is an empty completion (exactly when the choices array is
    /// empty) or a malformed-response error carrying the offending text
    /// (the embedded payload when there is one, else the whole body).
    pub fn handle_chat_response(status: u16, body: &str) -> (r: Result<LlmResponse, DriverError>)
        ensures
            !(200 <= status < 300) ==> (r matches Err(e) && e matches DriverError::BackendRejected {
                status: st,
                message,
            } && st == status && message@ == body@),
            200 <= status < 300 ==> {
                &&& (r is Ok <==> (chat_content(body@) matches Some(p) && payload_ok(p)))
                &&& (r matches Ok(resp) ==> (chat_content(body@) matches Some(p)
                    && resp_matches_payload(resp, p)))
                &&& ((r matches Err(e) && e is EmptyCompletion) <==> chat_choice_count(body@)
                    == Some(0int))
                &&& (r matches Err(e) ==> (e is EmptyCompletion
                    || (e matches DriverError::MalformedResponse { payload } && payload@
                    == (match chat_content(body@) {
                        Some(p) => p,
                        None => body@,
                    }))))
            },
    {
        let text = match Self::completion_text(status, body) {
            Ok(t) => t,
            Err(e) => {
                return Err(e);
            },
        };
        parse_generation_payload(text.as_str())
    }
}

} // verus!
