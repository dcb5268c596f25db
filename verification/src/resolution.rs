//! Resolution lookup: a fixed enumerated mapping from a resolution name to
//! a (width, height) pair, with a permissive default for unknown names.

use vstd::prelude::*;

verus! {

/// The (width, height) pair for a resolution name.  Unrecognized names
/// fall back to the vertical high-definition pair rather than failing.
pub open spec fn spec_resolution_for(name: Seq<char>) -> (u32, u32) {
    if name == "HD_Vertical"@ {
        (1080u32, 1920u32)
    } else if name == "HD_Horizontal"@ {
        (1920u32, 1080u32)
    } else if name == "Square"@ {
        (1080u32, 1080u32)
    } else {
        (1080u32, 1920u32)
    }
}

/// Character-by-character string equality: true iff the two views are the
/// same character sequence.
pub fn str_eq(a: &str, b: &str) -> (r: bool)
    ensures
        r == (a@ == b@),
{
    let na = a.unicode_len();
    let nb = b.unicode_len();
    if na != nb {
        return false;
    }
    let mut i: usize = 0;
    while i < na
        invariant
            na == a@.len(),
            na == b@.len(),
            i <= na,
            forall|j: int| 0 <= j < i ==> a@[j] == b@[j],
        decreases na - i,
    {
        if a.get_char(i) != b.get_char(i) {
            return false;
        }
        i += 1;
    }
    assert(a@ =~= b@);
    true
}

/// Look up the (width, height) pair for a resolution name; any
/// unrecognized name silently yields the default vertical pair.
pub fn resolution_for(name: &str) -> (r: (u32, u32))
    ensures
        r == spec_resolution_for(name@),
{
    if str_eq(name, "HD_Vertical") {
        (1080, 1920)
    } else if str_eq(name, "HD_Horizontal") {
        (1920, 1080)
    } else if str_eq(name, "Square") {
        (1080, 1080)
    } else {
        (1080, 1920)
    }
}

} // verus!
