//! Character-level text helpers: whitespace tests, trimming, and the
//! last segment of a `/`-separated path.

use vstd::prelude::*;
use vstd::string::StrSliceExecFns;

verus! {

/// ASCII whitespace, the characters trimmed from command output.
pub open spec fn is_ws(c: char) -> bool {
    c == ' ' || c == '\n' || c == '\t' || c == '\r'
}

/// Every character of `s` is whitespace; holds of the empty sequence.
pub open spec fn is_ws_only(s: Seq<char>) -> bool {
    forall|i: int| 0 <= i < s.len() ==> is_ws(#[trigger] s[i])
}

/// Decides `is_ws_only` for a string slice.
pub fn ws_only(s: &str) -> (r: bool)
    ensures
        r == is_ws_only(s@),
{
    let n = s.unicode_len();
    let mut i: usize = 0;
    while i < n
        invariant
            i <= n,
            n == s@.len(),
            forall|j: int| 0 <= j < i ==> is_ws(#[trigger] s@[j]),
        decreases n - i,
    {
        let c = s.get_char(i);
        if !(c == ' ' || c == '\n' || c == '\t' || c == '\r') {
            assert(!is_ws(s@[i as int]));
            return false;
        }
        i = i + 1;
    }
    true
}

/// `s` with trailing whitespace removed.
pub open spec fn spec_trim_end(s: Seq<char>) -> Seq<char>
    decreases s.len(),
{
    if s.len() > 0 && is_ws(s.last()) {
        spec_trim_end(s.drop_last())
    } else {
        s
    }
}

/// `s` with leading whitespace removed.
pub open spec fn spec_trim_start(s: Seq<char>) -> Seq<char>
    decreases s.len(),
{
    if s.len() > 0 && is_ws(s.first()) {
        spec_trim_start(s.subrange(1, s.len() as int))
    } else {
        s
    }
}

/// `s` with whitespace removed from both ends.
pub open spec fn spec_trim(s: Seq<char>) -> Seq<char> {
    spec_trim_start(spec_trim_end(s))
}

fn trimmed_end(s: &str, end: usize) -> (r: usize)
    requires
        end <= s@.len(),
    ensures
        r <= end,
        spec_trim_end(s@.subrange(0, end as int)) == s@.subrange(0, r as int),
    decreases end,
{
    if end == 0 {
        assert(s@.subrange(0, 0) =~= Seq::<char>::empty());
        0
    } else {
        let c = s.get_char(end - 1);
        if c == ' ' || c == '\n' || c == '\t' || c == '\r' {
            proof {
                assert(s@.subrange(0, end as int).drop_last() =~= s@.subrange(0, end - 1));
            }
            trimmed_end(s, end - 1)
        } else {
            end
        }
    }
}

fn trimmed_start(s: &str, start: usize, end: usize) -> (r: usize)
    requires
        start <= end <= s@.len(),
        spec_trim_start(s@.subrange(start as int, end as int)) == spec_trim_start(
            s@.subrange(0, end as int),
        ),
    ensures
        r <= end,
        spec_trim_start(s@.subrange(0, end as int)) == s@.subrange(r as int, end as int),
    decreases end - start,
{
    if start == end {
        assert(s@.subrange(start as int, end as int) =~= Seq::<char>::empty());
        start
    } else {
        let c = s.get_char(start);
        if c == ' ' || c == '\n' || c == '\t' || c == '\r' {
            proof {
                assert(s@.subrange(start as int, end as int).subrange(
                    1,
                    s@.subrange(start as int, end as int).len() as int,
                ) =~= s@.subrange(start + 1, end as int));
            }
            trimmed_start(s, start + 1, end)
        } else {
            start
        }
    }
}

/// Removes whitespace from both ends of `s`.
pub fn trim_ws(s: &str) -> (r: String)
    ensures
        r@ == spec_trim(s@),
{
    let n = s.unicode_len();
    proof {
        assert(s@.subrange(0, n as int) =~= s@);
    }
    let end = trimmed_end(s, n);
    let start = trimmed_start(s, 0, end);
    s.substring_char(start, end).to_owned()
}

/// The suffix of `s` that follows its last `/`; all of `s` when `s`
/// holds no `/`; empty when `s` ends in `/`.
pub open spec fn spec_tail_after_slash(s: Seq<char>) -> Seq<char>
    decreases s.len(),
{
    if s.len() == 0 {
        s
    } else if s.last() == '/' {
        Seq::<char>::empty()
    } else {
        spec_tail_after_slash(s.drop_last()).push(s.last())
    }
}

/// The last path segment of `s`: trailing slashes are ignored, and a
/// path with no segment at all names the current directory, `.`.
pub open spec fn spec_leaf(s: Seq<char>) -> Seq<char>
    decreases s.len(),
{
    if s.len() == 0 {
        "."@
    } else if s.last() == '/' {
        spec_leaf(s.drop_last())
    } else {
        spec_tail_after_slash(s)
    }
}

fn nonslash_end(s: &str, end: usize) -> (r: usize)
    requires
        end <= s@.len(),
    ensures
        r <= end,
        spec_leaf(s@.subrange(0, end as int)) == spec_leaf(s@.subrange(0, r as int)),
        r > 0 ==> s@[r - 1] != '/',
    decreases end,
{
    if end == 0 {
        0
    } else {
        let c = s.get_char(end - 1);
        if c == '/' {
            proof {
                assert(s@.subrange(0, end as int).drop_last() =~= s@.subrange(0, end - 1));
            }
            nonslash_end(s, end - 1)
        } else {
            end
        }
    }
}

fn tail_start(s: &str, end: usize) -> (r: usize)
    requires
        end <= s@.len(),
    ensures
        r <= end,
        spec_tail_after_slash(s@.subrange(0, end as int)) == s@.subrange(r as int, end as int),
    decreases end,
{
    if end == 0 {
        assert(s@.subrange(0, 0) =~= Seq::<char>::empty());
        0
    } else {
        let c = s.get_char(end - 1);
        if c == '/' {
            assert(s@.subrange(end as int, end as int) =~= Seq::<char>::empty());
            end
        } else {
            let r = tail_start(s, end - 1);
            proof {
                assert(s@.subrange(0, end as int).drop_last() =~= s@.subrange(0, end - 1));
                assert(s@.subrange(r as int, end - 1).push(s@[end - 1]) =~= s@.subrange(
                    r as int,
                    end as int,
                ));
            }
            r
        }
    }
}

/// The last path segment of `s`, or `.` where `s` has none.
pub fn path_leaf(s: &str) -> (r: String)
    ensures
        r@ == spec_leaf(s@),
{
    let n = s.unicode_len();
    proof {
        assert(s@.subrange(0, n as int) =~= s@);
    }
    let end = nonslash_end(s, n);
    if end == 0 {
        let dot = ".";
        proof {
            assert(s@.subrange(0, 0) =~= Seq::<char>::empty());
        }
        dot.to_owned()
    } else {
        let start = tail_start(s, end);
        s.substring_char(start, end).to_owned()
    }
}

/// A character occurs in a concatenation exactly when it occurs in one
/// of the two parts.
pub proof fn lemma_concat_contains(a: Seq<char>, b: Seq<char>, c: char)
    ensures
        (a + b).contains(c) <==> a.contains(c) || b.contains(c),
{
    if a.contains(c) {
        let i = choose|i: int| 0 <= i < a.len() && a[i] == c;
        assert((a + b)[i] == c);
    }
    if b.contains(c) {
        let i = choose|i: int| 0 <= i < b.len() && b[i] == c;
        assert((a + b)[a.len() + i] == c);
    }
    if (a + b).contains(c) {
        let i = choose|i: int| 0 <= i < (a + b).len() && (a + b)[i] == c;
        if i < a.len() {
            assert(a[i] == c);
        } else {
            assert(b[i - a.len()] == c);
        }
    }
}

/// A character that differs from every element of `s` does not occur
/// in `s`.
pub proof fn lemma_absent_char(s: Seq<char>, c: char)
    requires
        forall|i: int| 0 <= i < s.len() ==> (#[trigger] s[i]) != c,
    ensures
        !s.contains(c),
{
}

} // verus!
