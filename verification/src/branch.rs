//! The decision half of the git-branch resolver. Running the
//! version-control tool is I/O and stays with the caller; judging what
//! it wrote is done here.

use crate::text::{spec_trim, trim_ws};
use vstd::prelude::*;
use vstd::string::StrSliceExecFns;

verus! {

/// Judges one attempt of the version-control tool: the branch is the
/// trimmed output, and an unsuccessful command or an empty trimmed
/// output yields no branch.
pub fn branch_from_output(success: bool, out: &str) -> (r: Option<String>)
    ensures
        !success ==> r is None,
        success && spec_trim(out@).len() == 0 ==> r is None,
        success && spec_trim(out@).len() > 0 ==> r is Some && r->0@ == spec_trim(out@),
{
    if !success {
        return None;
    }
    let t = trim_ws(out);
    if t.as_str().unicode_len() == 0 {
        None
    } else {
        Some(t)
    }
}

} // verus!
