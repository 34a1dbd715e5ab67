//! Trusted access to `serde_json` for reading backend response documents.
//!
//! Each extraction here is deterministic — a function of the raw text alone
//! — so its result carries a name (`payload_title`, `response_field`, ...)
//! that the drivers' contracts speak of. The validation of the extracted
//! plain values is verified code (`validate_fields`).

use vstd::prelude::*;

verus! {

/// The `title` field of the embedded generation payload: present exactly
/// when the payload is a JSON document whose top-level `title` is a string.
pub uninterp spec fn payload_title(raw: Seq<char>) -> Option<Seq<char>>;

/// The `content` field of the embedded generation payload, alike.
pub uninterp spec fn payload_content(raw: Seq<char>) -> Option<Seq<char>>;

/// The `tags` field of the embedded generation payload: `None` when the
/// field is absent (or the payload is no JSON document), `Some(None)` when
/// it is present but not an array of strings, `Some(Some(ts))` when it is
/// an array of strings.
pub uninterp spec fn payload_tags(raw: Seq<char>) -> Option<Option<Seq<Seq<char>>>>;

/// Relies on `serde_json` (`from_str` to `Value`, `Value::get`,
/// `Value::as_str`, `Value::as_array`): reads the `title`, `content` and
/// `tags` fields of the embedded generation payload. Each extraction
/// depends on the raw text alone.
#[verifier::external_body]
pub(crate) fn extract_payload_fields(raw: &str) -> (r: (
    Option<String>,
    Option<String>,
    Option<Option<Vec<String>>>,
))
    ensures
        r.0.deep_view() == payload_title(raw@),
        r.1.deep_view() == payload_content(raw@),
        r.2.deep_view() == payload_tags(raw@),
{
    let doc: Option<serde_json::Value> = serde_json::from_str(raw).ok();
    let title = doc.as_ref().and_then(|d| d.get("title")).and_then(|v| v.as_str()).map(
        str::to_owned,
    );
    let content = doc.as_ref().and_then(|d| d.get("content")).and_then(|v| v.as_str()).map(
        str::to_owned,
    );
    let tags = doc.as_ref().and_then(|d| d.get("tags")).map(
        |v| v.as_array().and_then(|a| a.iter().map(|x| x.as_str().map(str::to_owned)).collect()),
    );
    (title, content, tags)
}

/// The top-level `response` field of the local backend's reply: present
/// exactly when the body is a JSON document whose `response` is a string.
pub uninterp spec fn response_field(body: Seq<char>) -> Option<Seq<char>>;

/// Relies on `serde_json` (`from_str` to `Value`, `Value::get`,
/// `Value::as_str`): the text of the top-level `response` field, a function
/// of the body alone.
#[verifier::external_body]
pub(crate) fn extract_response_field(body: &str) -> (r: Option<String>)
    ensures
        r.deep_view() == response_field(body@),
{
    let doc: Option<serde_json::Value> = serde_json::from_str(body).ok();
    doc.as_ref().and_then(|d| d.get("response")).and_then(|v| v.as_str()).map(str::to_owned)
}

/// How many completion choices the chat reply carries: present exactly when
/// the body is a JSON document whose top-level `choices` is an array.
pub uninterp spec fn chat_choice_count(body: Seq<char>) -> Option<int>;

/// The first choice's `message.content` text, when the first choice carries
/// one as a string.
pub uninterp spec fn chat_content(body: Seq<char>) -> Option<Seq<char>>;

/// Relies on `serde_json` (`from_str` to `Value`, `Value::get`,
/// `Value::as_str`, `Value::as_array`): the number of completion choices
/// and the first choice's `message.content`, both functions of the body
/// alone. The content comes out of the first array element, so when it is
/// present the array is non-empty.
#[verifier::external_body]
pub(crate) fn extract_chat_content(body: &str) -> (r: (Option<usize>, Option<String>))
    ensures
        match r.0 {
            Some(n) => chat_choice_count(body@) == Some(n as int),
            None => chat_choice_count(body@) is None,
        },
        r.1.deep_view() == chat_content(body@),
        r.1 is Some ==> (r.0 matches Some(n) && n >= 1),
{
    let doc: Option<serde_json::Value> = serde_json::from_str(body).ok();
    let choices = doc.as_ref().and_then(|d| d.get("choices")).and_then(|v| v.as_array());
    let count = choices.map(|a| a.len());
    let content = choices.and_then(|a| a.first()).and_then(|c| c.get("message")).and_then(
        |m| m.get("content"),
    ).and_then(|v| v.as_str()).map(str::to_owned);
    (count, content)
}

} // verus!
