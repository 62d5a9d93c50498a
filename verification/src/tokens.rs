//! Decimal rendering of token counts, abbreviated with `K` / `M` suffixes.

use vstd::prelude::*;
use vstd::string::StringExecFns;

verus! {

/// The ten decimal digit characters, by value.
pub open spec fn digit_char(d: nat) -> char {
    if d == 0 {
        '0'
    } else if d == 1 {
        '1'
    } else if d == 2 {
        '2'
    } else if d == 3 {
        '3'
    } else if d == 4 {
        '4'
    } else if d == 5 {
        '5'
    } else if d == 6 {
        '6'
    } else if d == 7 {
        '7'
    } else if d == 8 {
        '8'
    } else {
        '9'
    }
}

/// The usual decimal notation of `n`: most significant digit first,
/// no sign, no leading zero except for `n == 0` itself.
pub open spec fn spec_dec(n: nat) -> Seq<char>
    decreases n,
{
    if n < 10 {
        seq![digit_char(n)]
    } else {
        spec_dec(n / 10) + seq![digit_char(n % 10)]
    }
}

fn digit_str(d: u64) -> (r: &'static str)
    requires
        d < 10,
    ensures
        r@ == seq![digit_char(d as nat)],
{
    let s: &'static str = match d {
        0 => "0",
        1 => "1",
        2 => "2",
        3 => "3",
        4 => "4",
        5 => "5",
        6 => "6",
        7 => "7",
        8 => "8",
        _ => "9",
    };
    proof {
        reveal_strlit("0");
        reveal_strlit("1");
        reveal_strlit("2");
        reveal_strlit("3");
        reveal_strlit("4");
        reveal_strlit("5");
        reveal_strlit("6");
        reveal_strlit("7");
        reveal_strlit("8");
        reveal_strlit("9");
        assert(s@ =~= seq![digit_char(d as nat)]);
    }
    s
}

/// Renders `n` in decimal.
pub fn dec_string(n: u64) -> (r: String)
    ensures
        r@ == spec_dec(n as nat),
    decreases n,
{
    if n < 10 {
        digit_str(n).to_owned()
    } else {
        let mut s = dec_string(n / 10);
        s.append(digit_str(n % 10));
        s
    }
}

/// `tenths` tenths of a unit, written with one decimal digit and a
/// unit suffix: `15` becomes `1.5K` when the suffix is `K`.
pub open spec fn spec_scaled(tenths: nat, suffix: Seq<char>) -> Seq<char> {
    spec_dec(tenths / 10) + "."@ + seq![digit_char(tenths % 10)] + suffix
}

/// The abbreviated notation of a token count: counts of a million or
/// more in tenths of a million with an `M` suffix, counts of a thousand
/// or more in tenths of a thousand with a `K` suffix, smaller counts in
/// plain decimal. Tenths are rounded half-up.
pub open spec fn spec_token_label(t: nat) -> Seq<char> {
    if t >= 1000000 {
        spec_scaled((t + 50000) / 100000, "M"@)
    } else if t >= 1000 {
        spec_scaled((t + 50) / 100, "K"@)
    } else {
        spec_dec(t)
    }
}

fn scaled(tenths: u64, suffix: &str) -> (r: String)
    ensures
        r@ == spec_scaled(tenths as nat, suffix@),
{
    let mut s = dec_string(tenths / 10);
    s.append(".");
    s.append(digit_str(tenths % 10));
    s.append(suffix);
    proof {
        assert(s@ =~= spec_scaled(tenths as nat, suffix@));
    }
    s
}

/// Renders an arbitrary summed token count; the sum of three 64-bit
/// counters always stays far below the `2^80` bound.
pub(crate) fn total_label(total: u128) -> (r: String)
    requires
        total < 0x100000000000000000000,
    ensures
        r@ == spec_token_label(total as nat),
{
    if total >= 1000000 {
        let tenths_wide: u128 = (total + 50000) / 100000;
        proof {
            vstd::arithmetic::div_mod::lemma_div_is_ordered(
                (total + 50000) as int,
                0x100000000000000000000int + 50000,
                100000,
            );
            assert((0x100000000000000000000int + 50000) / 100000 < 0x10000000000000000int)
                by (nonlinear_arith);
        }
        scaled(tenths_wide as u64, "M")
    } else if total >= 1000 {
        let t: u64 = total as u64;
        scaled((t + 50) / 100, "K")
    } else {
        dec_string(total as u64)
    }
}

/// Abbreviates a token count for display: plain decimal below a
/// thousand, tenths of `K` below a million, tenths of `M` above.
pub fn format_token_count(tokens: u64) -> (r: String)
    ensures
        r@ == spec_token_label(tokens as nat),
{
    total_label(tokens as u128)
}

/// The ten digit characters.
pub open spec fn is_digit(c: char) -> bool {
    c == '0' || c == '1' || c == '2' || c == '3' || c == '4' || c == '5' || c == '6' || c == '7'
        || c == '8' || c == '9'
}

/// Every character of `s` is a digit.
pub open spec fn all_digits(s: Seq<char>) -> bool {
    forall|i: int| 0 <= i < s.len() ==> is_digit(#[trigger] s[i])
}

/// The shape of a plain integer: one or more digits, nothing else.
pub open spec fn plain_form(s: Seq<char>) -> bool {
    s.len() >= 1 && all_digits(s)
}

/// The shape of an abbreviated count: digits, a point, one digit, and
/// the unit character `u`.
pub open spec fn scaled_form(s: Seq<char>, u: char) -> bool {
    &&& s.len() >= 4
    &&& all_digits(s.subrange(0, s.len() - 3))
    &&& s[s.len() - 3] == '.'
    &&& is_digit(s[s.len() - 2])
    &&& s[s.len() - 1] == u
}

/// A decimal numeral is never empty and holds digits only.
pub proof fn lemma_dec_digits(n: nat)
    ensures
        spec_dec(n).len() >= 1,
        all_digits(spec_dec(n)),
    decreases n,
{
    if n >= 10 {
        lemma_dec_digits(n / 10);
    }
}

/// Law: for every token count the formatted label has exactly one of
/// the three shapes — plain integer, `N.NK`, or `N.NM` — and which one
/// is determined by the magnitude thresholds 1,000 and 1,000,000 alone.
pub proof fn lemma_format_shape(tokens: u64)
    ensures
        tokens < 1000 ==> plain_form(spec_token_label(tokens as nat)),
        1000 <= tokens < 1000000 ==> scaled_form(spec_token_label(tokens as nat), 'K'),
        tokens >= 1000000 ==> scaled_form(spec_token_label(tokens as nat), 'M'),
        !(plain_form(spec_token_label(tokens as nat)) && scaled_form(
            spec_token_label(tokens as nat),
            'K',
        )),
        !(plain_form(spec_token_label(tokens as nat)) && scaled_form(
            spec_token_label(tokens as nat),
            'M',
        )),
        !(scaled_form(spec_token_label(tokens as nat), 'K') && scaled_form(
            spec_token_label(tokens as nat),
            'M',
        )),
{
    reveal_strlit(".");
    reveal_strlit("K");
    reveal_strlit("M");
    let s = spec_token_label(tokens as nat);
    if tokens < 1000 {
        lemma_dec_digits(tokens as nat);
    } else {
        let tenths: nat = if tokens >= 1000000 {
            (tokens as nat + 50000) / 100000
        } else {
            (tokens as nat + 50) / 100
        };
        lemma_dec_digits(tenths / 10);
        let d = spec_dec(tenths / 10);
        assert(s.subrange(0, s.len() - 3) =~= d);
        assert(s[s.len() - 3] == '.');
        assert(s[s.len() - 2] == digit_char(tenths % 10));
        assert(is_digit(digit_char(tenths % 10)));
    }
    assert(s.len() >= 1 ==> (all_digits(s) ==> is_digit(s[s.len() - 1])));
}

/// A non-digit character does not occur in a sequence of digits.
pub proof fn lemma_digits_free(s: Seq<char>, c: char)
    requires
        all_digits(s),
        !is_digit(c),
    ensures
        !s.contains(c),
{
    crate::text::lemma_absent_char(s, c);
}

/// A character that is no digit, nor the point, nor a unit suffix,
/// does not occur in any formatted token label.
pub proof fn lemma_token_label_free(t: nat, c: char)
    requires
        !is_digit(c),
        c != '.',
        c != 'K',
        c != 'M',
    ensures
        !spec_token_label(t).contains(c),
{
    reveal_strlit(".");
    reveal_strlit("K");
    reveal_strlit("M");
    if t < 1000 {
        lemma_dec_digits(t);
        lemma_digits_free(spec_dec(t), c);
    } else {
        let tenths: nat = if t >= 1000000 {
            (t + 50000) / 100000
        } else {
            (t + 50) / 100
        };
        let suffix = if t >= 1000000 {
            "M"@
        } else {
            "K"@
        };
        lemma_dec_digits(tenths / 10);
        lemma_digits_free(spec_dec(tenths / 10), c);
        crate::text::lemma_absent_char("."@, c);
        crate::text::lemma_absent_char(suffix, c);
        crate::text::lemma_absent_char(seq![digit_char(tenths % 10)], c);
        crate::text::lemma_concat_contains(spec_dec(tenths / 10), "."@, c);
        crate::text::lemma_concat_contains(spec_dec(tenths / 10) + "."@, seq![digit_char(tenths % 10)], c);
        crate::text::lemma_concat_contains(
            spec_dec(tenths / 10) + "."@ + seq![digit_char(tenths % 10)],
            suffix,
            c,
        );
    }
}

} // verus!
