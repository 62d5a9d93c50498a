//! The trusted boundary to the JSON decoder. Three small functions
//! read one step of a document each — a field as a subdocument, a
//! string field, an integer field — and each result is a function of
//! the text and key alone, named by an uninterpreted spec function.
//! The payload's field paths are then walked step by step in verified
//! code, so each field of the decoded payload is pinned to the text.
//!
//! Step results are three-valued: outer `None` for text that does not
//! decode to an object or a field of the wrong type (a shape error),
//! `Some(None)` for an absent or null field (a valid absence),
//! `Some(Some(..))` for a present value.

use crate::payload::opt_opt_str_view;
use vstd::prelude::*;

verus! {

/// Whether `s` is a well-formed JSON document: names the success of
/// `serde_json::from_str::<serde_json::Value>`, which depends on the
/// input text alone.
pub uninterp spec fn json_parses(s: Seq<char>) -> bool;

/// The field `key` of the object `s` decodes to, re-serialized as
/// text; names the result of `json_field_text`.
pub uninterp spec fn spec_field_text(s: Seq<char>, key: Seq<char>) -> Option<Option<Seq<char>>>;

/// The string field `key` of the object `s` decodes to; names the
/// result of `json_str_field`.
pub uninterp spec fn spec_str_field(s: Seq<char>, key: Seq<char>) -> Option<Option<Seq<char>>>;

/// The unsigned-integer field `key` of the object `s` decodes to;
/// names the result of `json_u64_field`.
pub uninterp spec fn spec_u64_field(s: Seq<char>, key: Seq<char>) -> Option<Option<u64>>;

/// Relies on serde_json::from_str::<Value>: deterministic in the text,
/// so its success is the function of the text that `json_parses`
/// names. A JSON document must contain a value, so empty or
/// whitespace-only text never parses.
#[verifier::external_body]
pub(crate) fn text_parses(s: &str) -> (r: bool)
    ensures
        r == json_parses(s@),
        crate::text::is_ws_only(s@) ==> !r,
{
    serde_json::from_str::<serde_json::Value>(s).is_ok()
}

/// Relies on serde_json::from_str::<Value>, Value::{is_object, get,
/// is_null} and Value's serialization (to_string), all deterministic
/// in the text: reads field `key` and hands its value back as JSON
/// text; `spec_field_text` names the result.
#[verifier::external_body]
pub(crate) fn json_field_text(s: &str, key: &str) -> (r: Option<Option<String>>)
    ensures
        opt_opt_str_view(r) == spec_field_text(s@, key@),
{
    let v: serde_json::Value = serde_json::from_str(s).ok()?;
    if !v.is_object() {
        return None;
    }
    match v.get(key) {
        None => Some(None),
        Some(f) if f.is_null() => Some(None),
        Some(f) => Some(Some(f.to_string())),
    }
}

/// Relies on serde_json::from_str::<Value> and Value::{is_object, get,
/// is_null, as_str}, deterministic in the text: reads the string field
/// `key`; `spec_str_field` names the result.
#[verifier::external_body]
pub(crate) fn json_str_field(s: &str, key: &str) -> (r: Option<Option<String>>)
    ensures
        opt_opt_str_view(r) == spec_str_field(s@, key@),
{
    let v: serde_json::Value = serde_json::from_str(s).ok()?;
    if !v.is_object() {
        return None;
    }
    match v.get(key) {
        None => Some(None),
        Some(f) if f.is_null() => Some(None),
        Some(f) => f.as_str().map(|x| Some(x.to_owned())),
    }
}

/// Relies on serde_json::from_str::<Value> and Value::{is_object, get,
/// is_null, as_u64}, deterministic in the text: reads the
/// unsigned-integer field `key`; `spec_u64_field` names the result.
#[verifier::external_body]
pub(crate) fn json_u64_field(s: &str, key: &str) -> (r: Option<Option<u64>>)
    ensures
        r == spec_u64_field(s@, key@),
{
    let v: serde_json::Value = serde_json::from_str(s).ok()?;
    if !v.is_object() {
        return None;
    }
    match v.get(key) {
        None => Some(None),
        Some(f) if f.is_null() => Some(None),
        Some(f) => f.as_u64().map(Some),
    }
}

/// The `model.display_name` field of the decoded text.
pub open spec fn spec_model_field(s: Seq<char>) -> Option<Option<Seq<char>>> {
    match spec_field_text(s, "model"@) {
        None => None,
        Some(None) => Some(None),
        Some(Some(t)) => spec_str_field(t, "display_name"@),
    }
}

/// The `workspace.current_dir` field of the decoded text.
pub open spec fn spec_workspace_field(s: Seq<char>) -> Option<Option<Seq<char>>> {
    match spec_field_text(s, "workspace"@) {
        None => None,
        Some(None) => Some(None),
        Some(Some(t)) => spec_str_field(t, "current_dir"@),
    }
}

/// The top-level `cwd` field of the decoded text.
pub open spec fn spec_cwd_field(s: Seq<char>) -> Option<Option<Seq<char>>> {
    spec_str_field(s, "cwd"@)
}

/// The `context_window` subdocument of the decoded text.
pub open spec fn spec_context_window_text(s: Seq<char>) -> Option<Option<Seq<char>>> {
    spec_field_text(s, "context_window"@)
}

/// The `context_window.current_usage` subdocument of the decoded text.
pub open spec fn spec_usage_text(s: Seq<char>) -> Option<Option<Seq<char>>> {
    match spec_context_window_text(s) {
        None => None,
        Some(None) => Some(None),
        Some(Some(t)) => spec_field_text(t, "current_usage"@),
    }
}

/// One nested step into an integer field.
pub open spec fn spec_u64_step(
    outer: Option<Option<Seq<char>>>,
    key: Seq<char>,
) -> Option<Option<u64>> {
    match outer {
        None => None,
        Some(None) => Some(None),
        Some(Some(t)) => spec_u64_field(t, key),
    }
}

/// The `context_window.context_window_size` field of the decoded text.
pub open spec fn spec_window_field(s: Seq<char>) -> Option<Option<u64>> {
    spec_u64_step(spec_context_window_text(s), "context_window_size"@)
}

/// The `context_window.current_usage.input_tokens` field of the
/// decoded text.
pub open spec fn spec_input_tokens_field(s: Seq<char>) -> Option<Option<u64>> {
    spec_u64_step(spec_usage_text(s), "input_tokens"@)
}

/// The `context_window.current_usage.cache_creation_input_tokens`
/// field of the decoded text.
pub open spec fn spec_cache_creation_field(s: Seq<char>) -> Option<Option<u64>> {
    spec_u64_step(spec_usage_text(s), "cache_creation_input_tokens"@)
}

/// The `context_window.current_usage.cache_read_input_tokens` field of
/// the decoded text.
pub open spec fn spec_cache_read_field(s: Seq<char>) -> Option<Option<u64>> {
    spec_u64_step(spec_usage_text(s), "cache_read_input_tokens"@)
}

/// The text decodes to a document of the expected shape: every field
/// path is absent, null, or of its declared type. Text that does not
/// decode to an object has every field name `None`, so it never has
/// the expected shape.
pub open spec fn json_shape_ok(s: Seq<char>) -> bool {
    &&& spec_model_field(s) is Some
    &&& spec_workspace_field(s) is Some
    &&& spec_cwd_field(s) is Some
    &&& spec_window_field(s) is Some
    &&& spec_input_tokens_field(s) is Some
    &&& spec_cache_creation_field(s) is Some
    &&& spec_cache_read_field(s) is Some
}

} // verus!
