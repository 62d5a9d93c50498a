//! The status payload: a fully optional record decoded from the input
//! text, with a parse-or-default policy — undecodable input degrades
//! to a payload with every field absent, never to a failure. The
//! decoded fields are pinned to the input text through the named
//! decode results of the JSON boundary.

use crate::json::{
    json_field_text, json_parses, json_shape_ok, json_str_field, json_u64_field,
    spec_cache_creation_field, spec_cache_read_field, spec_cwd_field, spec_input_tokens_field,
    spec_model_field, spec_window_field, spec_workspace_field, text_parses,
};
use crate::text::is_ws_only;
use vstd::prelude::*;

verus! {

/// The decoded status payload. Every field is optional: absence is
/// valid and resolves to a defined default downstream.
pub struct StatusPayload {
    pub model_display_name: Option<String>,
    pub workspace_current_dir: Option<String>,
    pub cwd: Option<String>,
    pub context_window_size: Option<u64>,
    pub input_tokens: Option<u64>,
    pub cache_creation_tokens: Option<u64>,
    pub cache_read_tokens: Option<u64>,
}

/// The payload's mathematical shape: each string field as a character
/// sequence.
pub ghost struct PayloadView {
    pub model_display_name: Option<Seq<char>>,
    pub workspace_current_dir: Option<Seq<char>>,
    pub cwd: Option<Seq<char>>,
    pub context_window_size: Option<u64>,
    pub input_tokens: Option<u64>,
    pub cache_creation_tokens: Option<u64>,
    pub cache_read_tokens: Option<u64>,
}

/// The view of an optional string.
pub open spec fn opt_str_view(o: Option<String>) -> Option<Seq<char>> {
    match o {
        Some(s) => Some(s@),
        None => None,
    }
}

/// The view of a decoded field: the outer level (shape error or not)
/// kept, the string viewed.
pub open spec fn opt_opt_str_view(o: Option<Option<String>>) -> Option<Option<Seq<char>>> {
    match o {
        Some(f) => Some(opt_str_view(f)),
        None => None,
    }
}

impl View for StatusPayload {
    type V = PayloadView;

    open spec fn view(&self) -> PayloadView {
        PayloadView {
            model_display_name: opt_str_view(self.model_display_name),
            workspace_current_dir: opt_str_view(self.workspace_current_dir),
            cwd: opt_str_view(self.cwd),
            context_window_size: self.context_window_size,
            input_tokens: self.input_tokens,
            cache_creation_tokens: self.cache_creation_tokens,
            cache_read_tokens: self.cache_read_tokens,
        }
    }
}

/// The payload with every field absent.
pub open spec fn default_payload() -> PayloadView {
    PayloadView {
        model_display_name: None,
        workspace_current_dir: None,
        cwd: None,
        context_window_size: None,
        input_tokens: None,
        cache_creation_tokens: None,
        cache_read_tokens: None,
    }
}

/// Every field of the payload is absent.
pub open spec fn is_default_payload(pv: PayloadView) -> bool {
    pv == default_payload()
}

/// The payload that the text decodes to, field by field, over the
/// named decode results; meaningful where the text parses and has the
/// expected shape.
pub open spec fn spec_decoded_payload(s: Seq<char>) -> PayloadView {
    PayloadView {
        model_display_name: spec_model_field(s)->0,
        workspace_current_dir: spec_workspace_field(s)->0,
        cwd: spec_cwd_field(s)->0,
        context_window_size: spec_window_field(s)->0,
        input_tokens: spec_input_tokens_field(s)->0,
        cache_creation_tokens: spec_cache_creation_field(s)->0,
        cache_read_tokens: spec_cache_read_field(s)->0,
    }
}

impl StatusPayload {
    /// The payload with every field absent.
    pub fn empty() -> (r: StatusPayload)
        ensures
            is_default_payload(r@),
    {
        StatusPayload {
            model_display_name: None,
            workspace_current_dir: None,
            cwd: None,
            context_window_size: None,
            input_tokens: None,
            cache_creation_tokens: None,
            cache_read_tokens: None,
        }
    }
}

/// Decodes the input text into a payload. Empty or whitespace-only
/// text, text that is not JSON, and a document of the wrong shape all
/// degrade to the payload with every field absent — decoding never
/// fails. Where the text parses with the expected shape, every field
/// is exactly the named decode result for the text.
pub fn parse_status_payload(input: &str) -> (p: StatusPayload)
    ensures
        is_ws_only(input@) ==> is_default_payload(p@),
        !json_parses(input@) ==> is_default_payload(p@),
        json_parses(input@) && !json_shape_ok(input@) ==> is_default_payload(p@),
        json_parses(input@) && json_shape_ok(input@) ==> p@ == spec_decoded_payload(input@),
{
    if !text_parses(input) {
        return StatusPayload::empty();
    }
    let model = match json_field_text(input, "model") {
        None => None,
        Some(None) => Some(None),
        Some(Some(t)) => json_str_field(t.as_str(), "display_name"),
    };
    let workspace = match json_field_text(input, "workspace") {
        None => None,
        Some(None) => Some(None),
        Some(Some(t)) => json_str_field(t.as_str(), "current_dir"),
    };
    let cwd = json_str_field(input, "cwd");
    let cw_text = json_field_text(input, "context_window");
    let window = match &cw_text {
        None => None,
        Some(None) => Some(None),
        Some(Some(t)) => json_u64_field(t.as_str(), "context_window_size"),
    };
    let usage_text = match &cw_text {
        None => None,
        Some(None) => Some(None),
        Some(Some(t)) => json_field_text(t.as_str(), "current_usage"),
    };
    let input_tok = match &usage_text {
        None => None,
        Some(None) => Some(None),
        Some(Some(t)) => json_u64_field(t.as_str(), "input_tokens"),
    };
    let cache_creation_tok = match &usage_text {
        None => None,
        Some(None) => Some(None),
        Some(Some(t)) => json_u64_field(t.as_str(), "cache_creation_input_tokens"),
    };
    let cache_read_tok = match &usage_text {
        None => None,
        Some(None) => Some(None),
        Some(Some(t)) => json_u64_field(t.as_str(), "cache_read_input_tokens"),
    };
    match (model, workspace, cwd, window, input_tok, cache_creation_tok, cache_read_tok) {
        (Some(m), Some(w), Some(c), Some(cw), Some(it), Some(cc), Some(cr)) => StatusPayload {
            model_display_name: m,
            workspace_current_dir: w,
            cwd: c,
            context_window_size: cw,
            input_tokens: it,
            cache_creation_tokens: cc,
            cache_read_tokens: cr,
        },
        _ => StatusPayload::empty(),
    }
}

/// The directory the payload points at: the workspace directory if
/// present, else the process working directory, else `.`.
pub open spec fn spec_dir_path(pv: PayloadView) -> Seq<char> {
    match pv.workspace_current_dir {
        Some(w) => w,
        None => match pv.cwd {
            Some(c) => c,
            None => "."@,
        },
    }
}

/// Resolves the payload's directory path, preferring the workspace
/// directory over the process working directory.
pub fn directory_path(p: &StatusPayload) -> (r: String)
    ensures
        r@ == spec_dir_path(p@),
{
    match &p.workspace_current_dir {
        Some(w) => w.clone(),
        None => match &p.cwd {
            Some(c) => c.clone(),
            None => ".".to_owned(),
        },
    }
}

/// Law: whenever the workspace directory is present it is the resolved
/// path, whatever the process working directory says.
pub proof fn lemma_dir_preference(pv: PayloadView)
    requires
        pv.workspace_current_dir is Some,
    ensures
        spec_dir_path(pv) == pv.workspace_current_dir->0,
{
}

} // verus!
