//! Script classifier: per-character range membership and joining behaviour.
//!
//! Every predicate here is a pure, total function of the character's code
//! point alone; no position or neighbour information enters.

use vstd::prelude::*;

verus! {

/// First code point of the primary target-script block.
pub const TARGET_BLOCK_START: u32 = 0x0600;

/// Last code point of the primary target-script block.
pub const TARGET_BLOCK_END: u32 = 0x06FF;

/// First code point of the letter range whose members may connect.
pub const LETTER_RANGE_START: u32 = 0x0621;

/// Last code point of the letter range whose members may connect.
pub const LETTER_RANGE_END: u32 = 0x064A;

/// True iff `c` lies in the primary target-script block.
pub open spec fn spec_in_target_script(c: char) -> bool {
    TARGET_BLOCK_START <= c as u32 <= TARGET_BLOCK_END
}

/// True iff `c` is one of the fixed letters that never connect to a
/// following letter (alef, dal, thal, ra, zain and waw).
pub open spec fn spec_is_non_connector(c: char) -> bool {
    c as u32 == 0x0627 || c as u32 == 0x062F || c as u32 == 0x0630
        || c as u32 == 0x0631 || c as u32 == 0x0632 || c as u32 == 0x0648
}

/// True iff `c` exhibits joining (cursive-connecting) behaviour: it lies in
/// the letter range and is not one of the excluded non-connecting letters.
pub open spec fn spec_is_connecting(c: char) -> bool {
    LETTER_RANGE_START <= c as u32 <= LETTER_RANGE_END && !spec_is_non_connector(c)
}

/// True iff `c` falls in the primary block or one of the three
/// supplementary right-to-left script ranges.
pub open spec fn spec_is_rtl_range(c: char) -> bool {
    (0x0600 <= c as u32 <= 0x06FF)
        || (0x0750 <= c as u32 <= 0x077F)
        || (0xFB50 <= c as u32 <= 0xFDFF)
        || (0xFE70 <= c as u32 <= 0xFEFF)
}

/// Is the character in the primary target-script block?
pub fn in_target_script(ch: char) -> (r: bool)
    ensures
        r == spec_in_target_script(ch),
{
    let code = ch as u32;
    TARGET_BLOCK_START <= code && code <= TARGET_BLOCK_END
}

/// Does the character exhibit joining (cursive-connecting) behaviour?
pub fn is_connecting(ch: char) -> (r: bool)
    ensures
        r == spec_is_connecting(ch),
{
    let code = ch as u32;
    LETTER_RANGE_START <= code && code <= LETTER_RANGE_END
        && !(code == 0x0627 || code == 0x062F || code == 0x0630 || code == 0x0631
            || code == 0x0632 || code == 0x0648)
}

/// Does the character fall in one of the four right-to-left ranges?
pub fn is_rtl_range(ch: char) -> (r: bool)
    ensures
        r == spec_is_rtl_range(ch),
{
    let code = ch as u32;
    (0x0600 <= code && code <= 0x06FF) || (0x0750 <= code && code <= 0x077F)
        || (0xFB50 <= code && code <= 0xFDFF) || (0xFE70 <= code && code <= 0xFEFF)
}

/// Classification is a function of the code point alone: two characters
/// with equal code points classify identically under every predicate, so
/// repeated calls on the same character always agree.
pub proof fn lemma_classification_depends_on_code_point(a: char, b: char)
    requires
        a as u32 == b as u32,
    ensures
        spec_in_target_script(a) == spec_in_target_script(b),
        spec_is_connecting(a) == spec_is_connecting(b),
        spec_is_rtl_range(a) == spec_is_rtl_range(b),
{
}

} // verus!
