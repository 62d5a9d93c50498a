//! The status-line composer: token usage, percentage and color band,
//! and the assembly of the final display line.

use crate::json::{json_parses, json_shape_ok};
use crate::payload::{
    default_payload, opt_str_view, parse_status_payload, spec_decoded_payload, spec_dir_path,
    PayloadView, StatusPayload,
};
use crate::text::{is_ws_only, path_leaf, spec_leaf};
use crate::tokens::{dec_string, spec_dec, spec_token_label, total_label};
use vstd::prelude::*;
use vstd::string::StringExecFns;

verus! {

/// The model label: the payload's display name, else `Unknown`.
pub open spec fn spec_model_label(pv: PayloadView) -> Seq<char> {
    match pv.model_display_name {
        Some(m) => m,
        None => "Unknown"@,
    }
}

/// The value of an optional counter; absence counts as zero.
pub open spec fn opt_or_zero(o: Option<u64>) -> int {
    match o {
        Some(n) => n as int,
        None => 0,
    }
}

/// Summed token usage of the payload's three counters.
pub open spec fn spec_total_tokens(pv: PayloadView) -> nat {
    (opt_or_zero(pv.input_tokens) + opt_or_zero(pv.cache_creation_tokens) + opt_or_zero(
        pv.cache_read_tokens,
    )) as nat
}

/// The declared context-window size; absence counts as zero.
pub open spec fn spec_window(pv: PayloadView) -> int {
    opt_or_zero(pv.context_window_size)
}

/// The auto-compact limit: 80% of the context window, rounded down.
pub open spec fn spec_auto_compact_limit(window: int) -> int {
    window * 4 / 5
}

/// Usage percentage: the tokens' share of the auto-compact limit,
/// clamped to 100; defined as zero when the limit is zero.
pub open spec fn spec_percentage(tokens: int, window: int) -> int {
    let limit = spec_auto_compact_limit(window);
    if limit <= 0 {
        0
    } else if tokens * 100 / limit > 100 {
        100
    } else {
        tokens * 100 / limit
    }
}

fn pct_wide(tokens: u128, window: u64) -> (p: u32)
    requires
        tokens < 0x100000000000000000000,
    ensures
        p == spec_percentage(tokens as int, window as int),
        p <= 100,
{
    let limit: u128 = (window as u128) * 4 / 5;
    if limit == 0 {
        0
    } else {
        let raw: u128 = tokens * 100 / limit;
        if raw >= 100 {
            100
        } else {
            raw as u32
        }
    }
}

/// Computes the usage percentage from a token count and a declared
/// context-window size: clamped to `[0, 100]`, and zero whenever the
/// window (and with it the auto-compact limit) is zero.
pub fn usage_percentage(tokens: u64, context_window_size: u64) -> (p: u32)
    ensures
        p == spec_percentage(tokens as int, context_window_size as int),
        p <= 100,
        context_window_size == 0 ==> p == 0,
{
    pct_wide(tokens as u128, context_window_size)
}

/// The color band of a percentage: green below 70, yellow from 70
/// below 90, red from 90, as ANSI escapes.
pub open spec fn spec_color(pct: int) -> Seq<char> {
    if pct >= 90 {
        "\x1b[31m"@
    } else if pct >= 70 {
        "\x1b[33m"@
    } else {
        "\x1b[32m"@
    }
}

fn color_escape(pct: u32) -> (r: &'static str)
    ensures
        r@ == spec_color(pct as int),
{
    if pct >= 90 {
        "\x1b[31m"
    } else if pct >= 70 {
        "\x1b[33m"
    } else {
        "\x1b[32m"
    }
}

/// The full display line for a payload, an optional branch and the
/// model-hidden toggle: the model segment (unless hidden), the
/// directory leaf, the branch (when present), the abbreviated token
/// count, and the color-coded percentage.
pub open spec fn spec_status_line(
    pv: PayloadView,
    branch: Option<Seq<char>>,
    hide_model: bool,
) -> Seq<char> {
    let head = if hide_model {
        Seq::<char>::empty()
    } else {
        "\u{1F916} "@ + spec_model_label(pv) + " | "@
    };
    let branch_part = match branch {
        Some(b) => " | \u{1F33F} "@ + b,
        None => Seq::<char>::empty(),
    };
    let pct = spec_percentage(spec_total_tokens(pv) as int, spec_window(pv));
    head + "\u{1F4C1} "@ + spec_leaf(spec_dir_path(pv)) + branch_part + " | \u{1FA99} "@
        + spec_token_label(spec_total_tokens(pv)) + " | "@ + spec_color(pct) + spec_dec(pct as nat)
        + "%\x1b[0m"@
}

/// Assembles the display line from a decoded payload, the resolved
/// branch, and the model-hidden toggle. Composition never fails:
/// absent data has already degraded to defaults.
pub fn compose_status_line(
    p: &StatusPayload,
    git_branch: Option<String>,
    hide_model: bool,
) -> (r: String)
    ensures
        r@ == spec_status_line(p@, opt_str_view(git_branch), hide_model),
{
    let mut out = String::new();
    if !hide_model {
        out.append("\u{1F916} ");
        match &p.model_display_name {
            Some(m) => out.append(m.as_str()),
            None => out.append("Unknown"),
        }
        out.append(" | ");
    }
    out.append("\u{1F4C1} ");
    let dir = crate::payload::directory_path(p);
    let leaf = path_leaf(dir.as_str());
    out.append(leaf.as_str());
    match &git_branch {
        Some(b) => {
            out.append(" | \u{1F33F} ");
            out.append(b.as_str());
        },
        None => {},
    }
    out.append(" | \u{1FA99} ");
    let a: u128 = match p.input_tokens {
        Some(n) => n as u128,
        None => 0,
    };
    let b: u128 = match p.cache_creation_tokens {
        Some(n) => n as u128,
        None => 0,
    };
    let c: u128 = match p.cache_read_tokens {
        Some(n) => n as u128,
        None => 0,
    };
    let total: u128 = a + b + c;
    let label = total_label(total);
    out.append(label.as_str());
    out.append(" | ");
    let window: u64 = match p.context_window_size {
        Some(w) => w,
        None => 0,
    };
    let pct = pct_wide(total, window);
    out.append(color_escape(pct));
    let pct_digits = dec_string(pct as u64);
    out.append(pct_digits.as_str());
    out.append("%\x1b[0m");
    proof {
        assert(out@ =~= spec_status_line(p@, opt_str_view(git_branch), hide_model));
    }
    out
}

/// Builds the whole line from the raw input text: decode, then
/// compose. The line is a function of the text, the resolved branch
/// and the toggle alone: undecodable or mis-shaped input degrades to
/// the default payload's line — in particular, text that is not JSON
/// yields exactly the line of empty input — and decodable input yields
/// the line of its named decode results.
pub fn build_status_line(input: &str, git_branch: Option<String>, hide_model: bool) -> (r: String)
    ensures
        is_ws_only(input@) || !json_parses(input@) || !json_shape_ok(input@) ==> r@
            == spec_status_line(default_payload(), opt_str_view(git_branch), hide_model),
        json_parses(input@) && json_shape_ok(input@) ==> r@ == spec_status_line(
            spec_decoded_payload(input@),
            opt_str_view(git_branch),
            hide_model,
        ),
{
    let p = parse_status_payload(input);
    compose_status_line(&p, git_branch, hide_model)
}

proof fn lemma_trailer_free(pv: PayloadView, c: char)
    requires
        !crate::tokens::is_digit(c),
        c != '.',
        c != 'K',
        c != 'M',
        c != ' ',
        c != '|',
        c != '\u{1FA99}',
        c != '\u{1b}',
        c != '[',
        c != ']',
        c != '0',
        c != '1',
        c != '2',
        c != '3',
        c != 'm',
        c != '%',
    ensures
        !(" | \u{1FA99} "@ + spec_token_label(spec_total_tokens(pv)) + " | "@ + spec_color(
            spec_percentage(spec_total_tokens(pv) as int, spec_window(pv)),
        ) + spec_dec(spec_percentage(spec_total_tokens(pv) as int, spec_window(pv)) as nat)
            + "%\x1b[0m"@).contains(c),
{
    reveal_strlit(" | \u{1FA99} ");
    reveal_strlit(" | ");
    reveal_strlit("%\x1b[0m");
    reveal_strlit("\x1b[31m");
    reveal_strlit("\x1b[33m");
    reveal_strlit("\x1b[32m");
    let coin = " | \u{1FA99} "@;
    let label = spec_token_label(spec_total_tokens(pv));
    let sep = " | "@;
    let pct = spec_percentage(spec_total_tokens(pv) as int, spec_window(pv));
    let color = spec_color(pct);
    let digits = spec_dec(pct as nat);
    let tail = "%\x1b[0m"@;
    crate::text::lemma_absent_char(coin, c);
    crate::tokens::lemma_token_label_free(spec_total_tokens(pv), c);
    crate::text::lemma_absent_char(sep, c);
    crate::text::lemma_absent_char(color, c);
    crate::tokens::lemma_dec_digits(pct as nat);
    crate::tokens::lemma_digits_free(digits, c);
    crate::text::lemma_absent_char(tail, c);
    crate::text::lemma_concat_contains(coin, label, c);
    crate::text::lemma_concat_contains(coin + label, sep, c);
    crate::text::lemma_concat_contains(coin + label + sep, color, c);
    crate::text::lemma_concat_contains(coin + label + sep + color, digits, c);
    crate::text::lemma_concat_contains(coin + label + sep + color + digits, tail, c);
}

proof fn lemma_line_free(pv: PayloadView, branch: Option<Seq<char>>, hide_model: bool, c: char)
    requires
        !crate::tokens::is_digit(c),
        c != '.',
        c != 'K',
        c != 'M',
        c != ' ',
        c != '|',
        c != '\u{1F4C1}',
        c != '\u{1FA99}',
        c != '\u{1b}',
        c != '[',
        c != ']',
        c != '0',
        c != '1',
        c != '2',
        c != '3',
        c != 'm',
        c != '%',
        !hide_model ==> c != '\u{1F916}' && !spec_model_label(pv).contains(c),
        branch is Some ==> c != '\u{1F33F}' && !branch->0.contains(c),
        !spec_leaf(spec_dir_path(pv)).contains(c),
    ensures
        !spec_status_line(pv, branch, hide_model).contains(c),
{
    reveal_strlit("\u{1F916} ");
    reveal_strlit(" | ");
    reveal_strlit("\u{1F4C1} ");
    reveal_strlit(" | \u{1F33F} ");
    let head = if hide_model {
        Seq::<char>::empty()
    } else {
        "\u{1F916} "@ + spec_model_label(pv) + " | "@
    };
    if !hide_model {
        crate::text::lemma_absent_char("\u{1F916} "@, c);
        crate::text::lemma_absent_char(" | "@, c);
        crate::text::lemma_concat_contains("\u{1F916} "@, spec_model_label(pv), c);
        crate::text::lemma_concat_contains("\u{1F916} "@ + spec_model_label(pv), " | "@, c);
    }
    assert(!head.contains(c));
    let dirlit = "\u{1F4C1} "@;
    crate::text::lemma_absent_char(dirlit, c);
    let leaf = spec_leaf(spec_dir_path(pv));
    let branch_part = match branch {
        Some(b) => " | \u{1F33F} "@ + b,
        None => Seq::<char>::empty(),
    };
    if branch is Some {
        crate::text::lemma_absent_char(" | \u{1F33F} "@, c);
        crate::text::lemma_concat_contains(" | \u{1F33F} "@, branch->0, c);
    }
    assert(!branch_part.contains(c));
    let trailer = " | \u{1FA99} "@ + spec_token_label(spec_total_tokens(pv)) + " | "@ + spec_color(
        spec_percentage(spec_total_tokens(pv) as int, spec_window(pv)),
    ) + spec_dec(spec_percentage(spec_total_tokens(pv) as int, spec_window(pv)) as nat)
        + "%\x1b[0m"@;
    lemma_trailer_free(pv, c);
    crate::text::lemma_concat_contains(head, dirlit, c);
    crate::text::lemma_concat_contains(head + dirlit, leaf, c);
    crate::text::lemma_concat_contains(head + dirlit + leaf, branch_part, c);
    crate::text::lemma_concat_contains(head + dirlit + leaf + branch_part, trailer, c);
    assert(spec_status_line(pv, branch, hide_model) =~= head + dirlit + leaf + branch_part
        + trailer);
}

/// Law: with the model-hidden toggle active the line carries no robot
/// marker — unless the directory leaf or the branch name holds that
/// character themselves — and it begins directly with the directory
/// segment.
pub proof fn lemma_model_hidden(pv: PayloadView, branch: Option<Seq<char>>)
    requires
        !spec_leaf(spec_dir_path(pv)).contains('\u{1F916}'),
        branch is Some ==> !branch->0.contains('\u{1F916}'),
    ensures
        !spec_status_line(pv, branch, true).contains('\u{1F916}'),
        spec_status_line(pv, branch, true).len() >= 2,
        spec_status_line(pv, branch, true).subrange(0, 2) == "\u{1F4C1} "@,
{
    lemma_line_free(pv, branch, true, '\u{1F916}');
    reveal_strlit("\u{1F4C1} ");
    let line = spec_status_line(pv, branch, true);
    assert(line.subrange(0, 2) =~= "\u{1F4C1} "@);
}

/// Law: the all-absent payload degrades to the defined defaults — the
/// `Unknown` model, the `.` directory, zero tokens and zero percent.
pub proof fn lemma_default_line()
    ensures
        spec_model_label(default_payload()) == "Unknown"@,
        spec_leaf(spec_dir_path(default_payload())) == "."@,
        spec_total_tokens(default_payload()) == 0,
        spec_percentage(0, spec_window(default_payload())) == 0,
        spec_token_label(0) == "0"@,
{
    reveal_strlit(".");
    reveal_strlit("0");
    reveal_with_fuel(spec_leaf, 3);
    reveal_with_fuel(crate::text::spec_tail_after_slash, 3);
    assert(spec_leaf("."@) =~= "."@);
    assert(spec_dec(0) =~= "0"@);
}

/// Law: with no branch resolved the line carries no branch marker —
/// unless the model label or the directory leaf holds that character
/// themselves.
pub proof fn lemma_no_branch(pv: PayloadView, hide_model: bool)
    requires
        !spec_leaf(spec_dir_path(pv)).contains('\u{1F33F}'),
        !hide_model ==> !spec_model_label(pv).contains('\u{1F33F}'),
    ensures
        !spec_status_line(pv, None, hide_model).contains('\u{1F33F}'),
{
    lemma_line_free(pv, None, hide_model, '\u{1F33F}');
}

} // verus!
