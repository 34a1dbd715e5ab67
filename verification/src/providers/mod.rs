//! The backend drivers and what they share: the structured generation
//! result, the driver error taxonomy, payload validation and the title
//! sanitizer.

pub mod json;
pub mod ollama;
pub mod openai;
pub mod sanitize;

pub use sanitize::sanitize_title;

use crate::providers::json::{extract_payload_fields, payload_content, payload_tags, payload_title};
use crate::providers::sanitize::{ends_with_md, lemma_sanitize_has_extension, spec_sanitize_title};
use crate::text::spec_digits;
use crate::text::u16_to_string;
use vstd::prelude::*;

verus! {

/// The structured result a backend produces from raw input: a sanitized
/// title, the cleaned content, and up to three tags.
#[derive(Debug, Clone)]
pub struct LlmResponse {
    pub title: String,
    pub content: String,
    pub tags: Vec<String>,
}

/// What every driver guarantees of a result it returns: the title has been
/// routed through the sanitizer and ends in the fixed extension, the
/// content is non-empty, and there are at most three tags. (That a
/// sanitized ASCII title also holds no filesystem-unsafe character is
/// `lemma_sanitize_shape`.)
pub open spec fn response_wf(r: LlmResponse) -> bool {
    &&& ends_with_md(r.title@)
    &&& r.content@.len() > 0
    &&& r.tags@.len() <= 3
}

/// The errors a backend driver can fail with.
#[derive(Debug, Clone, PartialEq, Eq)]
pub enum DriverError {
    /// The cloud driver was constructed without a credential.
    MissingCredential,
    /// Connection or transport failure; carries the transport detail.
    BackendUnreachable(String),
    /// The backend answered with a non-success status; carries that status
    /// and the backend's own message.
    BackendRejected { status: u16, message: String },
    /// The backend answered with a success status, but the payload is not
    /// parseable into the generation-result shape; carries the raw payload.
    MalformedResponse { payload: String },
    /// The cloud backend returned zero completion choices.
    EmptyCompletion,
}

impl DriverError {
    /// A user-facing message for this error. For a malformed response the
    /// message carries the raw offending payload verbatim.
    pub fn describe(&self) -> (r: String)
        ensures
            self is MissingCredential ==> r@ == "OpenAI API key not configured. Set OPENAI_API_KEY environment variable or add to config"@,
            self matches DriverError::BackendUnreachable(d) ==> r@ == "Failed to connect to backend: "@
                + d@,
            self matches DriverError::BackendRejected { status, message } ==> r@
                == "Backend API error "@ + spec_digits(status as nat) + ": "@ + message@,
            self matches DriverError::MalformedResponse { payload } ==> r@
                == "Failed to parse LLM JSON response: "@ + payload@,
            self is EmptyCompletion ==> r@ == "No response from backend"@,
    {
        match self {
            DriverError::MissingCredential => String::from_str(
                "OpenAI API key not configured. Set OPENAI_API_KEY environment variable or add to config",
            ),
            DriverError::BackendUnreachable(d) => {
                let mut r = String::from_str("Failed to connect to backend: ");
                r.append(d.as_str());
                r
            },
            DriverError::BackendRejected { status, message } => {
                let mut r = String::from_str("Backend API error ");
                let digits = u16_to_string(*status);
                r.append(digits.as_str());
                r.append(": ");
                r.append(message.as_str());
                r
            },
            DriverError::MalformedResponse { payload } => {
                let mut r = String::from_str("Failed to parse LLM JSON response: ");
                r.append(payload.as_str());
                r
            },
            DriverError::EmptyCompletion => String::from_str("No response from backend"),
        }
    }
}

/// The malformed-response diagnostic contains the raw payload verbatim:
/// dropping the fixed prefix leaves exactly the payload.
pub proof fn lemma_malformed_diagnostic(r: String, payload: String)
    requires
        r@ == "Failed to parse LLM JSON response: "@ + payload@,
    ensures
        r@.skip("Failed to parse LLM JSON response: "@.len() as int) == payload@,
{
    assert(r@.skip("Failed to parse LLM JSON response: "@.len() as int) =~= payload@);
}

/// A malformed-response error carrying the raw payload.
pub(crate) fn malformed(raw: &str) -> (e: DriverError)
    ensures
        e matches DriverError::MalformedResponse { payload } && payload@ == raw@,
{
    DriverError::MalformedResponse { payload: String::from_str(raw) }
}

/// When extracted fields form a valid generation result: title and content
/// present and non-empty, and no more than three tags.
pub open spec fn fields_valid(
    title: Option<String>,
    content: Option<String>,
    tags: Option<Vec<String>>,
) -> bool {
    &&& (title matches Some(t) && t@.len() > 0)
    &&& (content matches Some(c) && c@.len() > 0)
    &&& (tags matches Some(ts) ==> ts@.len() <= 3)
}

/// The tag sequence of a result: an absent `tags` field is accepted and
/// normalized to the empty sequence.
pub open spec fn spec_tags(tags: Option<Vec<String>>) -> Seq<String> {
    match tags {
        Some(ts) => ts@,
        None => Seq::empty(),
    }
}

/// The same tag sequence, by characters.
pub open spec fn deep_spec_tags(tags: Option<Vec<String>>) -> Seq<Seq<char>> {
    match tags {
        Some(ts) => ts.deep_view(),
        None => Seq::empty(),
    }
}

/// Validate the fields extracted from a backend's embedded JSON and build
/// the generation result. Exactly the valid field combinations are
/// accepted; the title is routed through the sanitizer; an absent `tags`
/// field becomes the empty sequence; any invalid combination fails with a
/// malformed-response error carrying the raw payload.
pub fn validate_fields(
    title: Option<String>,
    content: Option<String>,
    tags: Option<Vec<String>>,
    raw: &str,
) -> (r: Result<LlmResponse, DriverError>)
    ensures
        r is Ok <==> fields_valid(title, content, tags),
        r matches Ok(resp) ==> {
            &&& (title matches Some(t0) && resp.title@ == spec_sanitize_title(t0@))
            &&& (content matches Some(c0) && resp.content == c0)
            &&& resp.tags@ == spec_tags(tags)
            &&& resp.tags.deep_view() == deep_spec_tags(tags)
            &&& response_wf(resp)
        },
        r matches Err(e) ==> (e matches DriverError::MalformedResponse { payload } && payload@
            == raw@),
{
    let ghost gtags = tags;
    let t = match title {
        Some(t) => t,
        None => {
            return Err(malformed(raw));
        },
    };
    if t.as_str().unicode_len() == 0 {
        return Err(malformed(raw));
    }
    let c = match content {
        Some(c) => c,
        None => {
            return Err(malformed(raw));
        },
    };
    if c.as_str().unicode_len() == 0 {
        return Err(malformed(raw));
    }
    let ts: Vec<String> = match tags {
        Some(ts) => {
            if ts.len() > 3 {
                return Err(malformed(raw));
            }
            ts
        },
        None => Vec::new(),
    };
    let safe_title = sanitize_title(t.as_str());
    proof {
        lemma_sanitize_has_extension(t@);
        assert(ts.deep_view() =~= deep_spec_tags(gtags));
    }
    Ok(LlmResponse { title: safe_title, content: c, tags: ts })
}

/// When the embedded payload carries a valid generation result: its `title`
/// and `content` are present and non-empty, and its `tags` field, when
/// present, is an array of at most three strings.
pub open spec fn payload_ok(raw: Seq<char>) -> bool {
    &&& (payload_title(raw) matches Some(t) && t.len() > 0)
    &&& (payload_content(raw) matches Some(c) && c.len() > 0)
    &&& (payload_tags(raw) matches Some(tv) ==> (tv matches Some(ts) && ts.len() <= 3))
}

/// The tag sequence a valid payload yields: an absent `tags` field becomes
/// the empty sequence.
pub open spec fn spec_payload_tags(raw: Seq<char>) -> Seq<Seq<char>> {
    match payload_tags(raw) {
        Some(tv) => match tv {
            Some(ts) => ts,
            None => Seq::empty(),
        },
        None => Seq::empty(),
    }
}

/// What the generation result is when the payload `raw` is valid: the
/// payload's title routed through the sanitizer, its content verbatim, and
/// its tags (empty when absent).
pub open spec fn resp_matches_payload(resp: LlmResponse, raw: Seq<char>) -> bool {
    &&& (payload_title(raw) matches Some(t) && resp.title@ == spec_sanitize_title(t))
    &&& (payload_content(raw) matches Some(c) && resp.content@ == c)
    &&& resp.tags.deep_view() == spec_payload_tags(raw)
    &&& response_wf(resp)
}

/// Parse a backend's embedded JSON payload and validate its shape: succeeds
/// exactly when the payload carries a valid generation result, and then
/// returns that result; otherwise fails with a malformed-response error
/// carrying the raw payload.
pub fn parse_generation_payload(raw: &str) -> (r: Result<LlmResponse, DriverError>)
    ensures
        r is Ok <==> payload_ok(raw@),
        r matches Ok(resp) ==> resp_matches_payload(resp, raw@),
        r matches Err(e) ==> (e matches DriverError::MalformedResponse { payload } && payload@
            == raw@),
{
    let (title, content, tags) = extract_payload_fields(raw);
    let ghost gtitle = title;
    let ghost gcontent = content;
    let ghost gtags = tags;
    let tags_flat: Option<Vec<String>> = match tags {
        Some(present) => match present {
            Some(ts) => Some(ts),
            None => {
                return Err(malformed(raw));
            },
        },
        None => None,
    };
    let ghost gflat = tags_flat;
    let r = validate_fields(title, content, tags_flat, raw);
    proof {
        match gtitle {
            Some(t) => {
                assert(payload_title(raw@) == Some(t@));
            },
            None => {
                assert(payload_title(raw@) is None);
            },
        }
        match gcontent {
            Some(c) => {
                assert(payload_content(raw@) == Some(c@));
            },
            None => {
                assert(payload_content(raw@) is None);
            },
        }
        match gtags {
            Some(tv) => {
                match tv {
                    Some(ts) => {
                        assert(payload_tags(raw@) == Some(Some(ts.deep_view())));
                        assert(gflat == Some(ts));
                    },
                    None => {
                        assert(false);
                    },
                }
            },
            None => {
                assert(payload_tags(raw@) is None);
                assert(gflat is None);
            },
        }
        assert(fields_valid(gtitle, gcontent, gflat) == payload_ok(raw@));
        if r is Ok {
            assert(deep_spec_tags(gflat) == spec_payload_tags(raw@));
        }
    }
    r
}

} // verus!
