//! Contextual shaper: joining-context resolution, visual-form selection,
//! and whole-string right-to-left reordering.
//!
//! The shaper walks the character sequence once with a one-character
//! lookbehind/lookahead window.  Each target-script character is mapped to
//! the visual form selected by whether its neighbours connect; every other
//! character passes through unchanged.  After the walk, the whole output is
//! reversed exactly once iff any character falls in a right-to-left range.

use vstd::prelude::*;
use vstd::seq_lib::*;
use crate::classify::{
    in_target_script, is_connecting, is_rtl_range, spec_in_target_script, spec_is_connecting,
    spec_is_rtl_range,
};

verus! {

/// The four contextual shapes a joining letter can take.
#[derive(Clone, Copy, Debug, PartialEq, Eq, Structural)]
pub enum VisualForm {
    Isolated,
    Initial,
    Medial,
    Final,
}

/// Does an optional neighbour itself connect?  An absent neighbour never
/// connects.  Note the deliberate asymmetry of this simplified model: the
/// predicate asks whether the neighbour connects, not whether the current
/// character would connect to it.
pub open spec fn spec_neighbor_connects(n: Option<char>) -> bool {
    match n {
        Some(c) => spec_is_connecting(c),
        None => false,
    }
}

/// Visual form selected by the pair (previous connects, next connects).
pub open spec fn spec_select_form(prev_connects: bool, next_connects: bool) -> VisualForm {
    if prev_connects && next_connects {
        VisualForm::Medial
    } else if prev_connects {
        VisualForm::Final
    } else if next_connects {
        VisualForm::Initial
    } else {
        VisualForm::Isolated
    }
}

/// Form-selection table.  In the current contract every form renders as
/// the original character: the table is an identity mapping, preserved
/// deliberately as the documented baseline behaviour.
pub open spec fn spec_apply_form(form: VisualForm, c: char) -> char {
    match form {
        VisualForm::Isolated => c,
        VisualForm::Initial => c,
        VisualForm::Medial => c,
        VisualForm::Final => c,
    }
}

/// The character produced for `c` given its immediate neighbours: a
/// non-target character passes through unchanged; a target character is
/// mapped through the form table for its joining context.
pub open spec fn spec_shape_char(c: char, prev: Option<char>, next: Option<char>) -> char {
    if !spec_in_target_script(c) {
        c
    } else {
        spec_apply_form(
            spec_select_form(spec_neighbor_connects(prev), spec_neighbor_connects(next)),
            c,
        )
    }
}

/// The shaped sequence before any reordering: position `i` holds the shape
/// of `s[i]` in the context of its neighbours at `i - 1` and `i + 1`.
pub open spec fn spec_shaped_seq(s: Seq<char>) -> Seq<char> {
    Seq::new(
        s.len(),
        |i: int|
            spec_shape_char(
                s[i],
                if i > 0 {
                    Some(s[i - 1])
                } else {
                    None
                },
                if i + 1 < s.len() {
                    Some(s[i + 1])
                } else {
                    None
                },
            ),
    )
}

/// Does any character of the sequence fall in a right-to-left range?
pub open spec fn spec_has_rtl(s: Seq<char>) -> bool {
    exists|i: int| 0 <= i < s.len() && spec_is_rtl_range(s[i])
}

/// The complete transform: shape every character in context, then reverse
/// the whole shaped sequence iff it contains a right-to-left character.
pub open spec fn spec_reshape(s: Seq<char>) -> Seq<char> {
    let shaped = spec_shaped_seq(s);
    if spec_has_rtl(shaped) {
        shaped.reverse()
    } else {
        shaped
    }
}

/// The identity form table means shaping never alters a character's value:
/// the shaped sequence equals the input sequence position by position.
pub proof fn lemma_shaped_seq_preserves_values(s: Seq<char>)
    ensures
        spec_shaped_seq(s).len() == s.len(),
        forall|i: int| 0 <= i < s.len() ==> spec_shaped_seq(s)[i] == s[i],
        spec_shaped_seq(s) == s,
{
    assert(spec_shaped_seq(s) =~= s);
}

/// A non-target character is never altered in value by shaping; it can at
/// most be repositioned by the whole-string reversal.
pub proof fn lemma_non_target_unaltered(s: Seq<char>, i: int)
    requires
        0 <= i < s.len(),
        !spec_in_target_script(s[i]),
    ensures
        spec_shaped_seq(s)[i] == s[i],
{
}

/// The transform preserves length: the output has exactly as many
/// characters as the input, reversed or not.
pub proof fn lemma_reshape_preserves_length(s: Seq<char>)
    ensures
        spec_reshape(s).len() == s.len(),
{
}

/// The right-to-left decision is all-or-nothing and monotone in the input:
/// if the input holds any right-to-left character, the output is the
/// reverse of the shaped sequence; otherwise the output keeps the shaped
/// sequence's order exactly.
pub proof fn lemma_rtl_reversal(s: Seq<char>)
    ensures
        spec_has_rtl(s) ==> spec_reshape(s) == spec_shaped_seq(s).reverse(),
        !spec_has_rtl(s) ==> spec_reshape(s) == spec_shaped_seq(s),
{
    lemma_shaped_seq_preserves_values(s);
}

/// Shape one character from its one-character window, exactly as
/// `spec_shape_char` describes.
pub fn reshape_arabic_char(ch: char, prev: Option<char>, next: Option<char>) -> (r: char)
    ensures
        r == spec_shape_char(ch, prev, next),
{
    if !in_target_script(ch) {
        return ch;
    }
    let prev_connects = match prev {
        Some(p) => is_connecting(p),
        None => false,
    };
    let next_connects = match next {
        Some(n) => is_connecting(n),
        None => false,
    };
    let form = select_form(prev_connects, next_connects);
    apply_form(form, ch)
}

/// Select the visual form for a joining context.
pub fn select_form(prev_connects: bool, next_connects: bool) -> (r: VisualForm)
    ensures
        r == spec_select_form(prev_connects, next_connects),
{
    match (prev_connects, next_connects) {
        (true, true) => VisualForm::Medial,
        (true, false) => VisualForm::Final,
        (false, true) => VisualForm::Initial,
        (false, false) => VisualForm::Isolated,
    }
}

/// Map a visual form to its rendered character through the (identity)
/// form-selection table.
pub fn apply_form(form: VisualForm, ch: char) -> (r: char)
    ensures
        r == spec_apply_form(form, ch),
{
    match form {
        VisualForm::Isolated => get_isolated_form(ch),
        VisualForm::Initial => get_initial_form(ch),
        VisualForm::Medial => get_medial_form(ch),
        VisualForm::Final => get_final_form(ch),
    }
}

/// Rendered character for the isolated form (identity in this contract).
pub fn get_isolated_form(ch: char) -> (r: char)
    ensures
        r == ch,
{
    ch
}

/// Rendered character for the initial form (identity in this contract).
pub fn get_initial_form(ch: char) -> (r: char)
    ensures
        r == ch,
{
    ch
}

/// Rendered character for the medial form (identity in this contract).
pub fn get_medial_form(ch: char) -> (r: char)
    ensures
        r == ch,
{
    ch
}

/// Rendered character for the final form (identity in this contract).
pub fn get_final_form(ch: char) -> (r: char)
    ensures
        r == ch,
{
    ch
}

/// Decode a string into its ordered sequence of characters.
pub fn chars_of(text: &str) -> (v: Vec<char>)
    ensures
        v@ == text@,
{
    let n = text.unicode_len();
    let mut v: Vec<char> = Vec::new();
    let mut i: usize = 0;
    while i < n
        invariant
            n == text@.len(),
            i <= n,
            v@ == text@.subrange(0, i as int),
        decreases n - i,
    {
        let c = text.get_char(i);
        v.push(c);
        assert(v@ =~= text@.subrange(0, i + 1));
        i += 1;
    }
    assert(v@ =~= text@);
    v
}

/// Relies on `String::push` of std: appends the given character at the end
/// of the string.
#[verifier::external_body]
fn push_char(s: &mut String, c: char)
    ensures
        final(s)@ == old(s)@.push(c),
{
    s.push(c);
}

/// Does any character of the vector fall in a right-to-left range?
fn has_rtl_chars(v: &Vec<char>) -> (r: bool)
    ensures
        r == spec_has_rtl(v@),
{
    let n = v.len();
    let mut i: usize = 0;
    while i < n
        invariant
            n == v@.len(),
            i <= n,
            forall|j: int| 0 <= j < i ==> !spec_is_rtl_range(v@[j]),
        decreases n - i,
    {
        if is_rtl_range(v[i]) {
            return true;
        }
        i += 1;
    }
    false
}

/// Does the text contain any character of a right-to-left range?
pub fn is_rtl_text(text: &str) -> (r: bool)
    ensures
        r == spec_has_rtl(text@),
{
    let chars = chars_of(text);
    has_rtl_chars(&chars)
}

/// Shape the whole text: every character is replaced by its contextual
/// form (the identity table leaves values unchanged), and the result is
/// reversed as a whole iff it contains any right-to-left character.  The
/// output always has exactly as many characters as the input.
pub fn reshape_arabic_text(text: &str) -> (r: String)
    ensures
        r@ == spec_reshape(text@),
        r@.len() == text@.len(),
{
    let chars = chars_of(text);
    let n = chars.len();
    let mut shaped: Vec<char> = Vec::new();
    let mut i: usize = 0;
    while i < n
        invariant
            n == chars@.len(),
            chars@ == text@,
            i <= n,
            shaped@.len() == i,
            forall|j: int| 0 <= j < i ==> shaped@[j] == spec_shaped_seq(text@)[j],
        decreases n - i,
    {
        let prev = if i > 0 {
            Some(chars[i - 1])
        } else {
            None
        };
        let next = if i + 1 < n {
            Some(chars[i + 1])
        } else {
            None
        };
        let c = reshape_arabic_char(chars[i], prev, next);
        shaped.push(c);
        i += 1;
    }
    assert(shaped@ =~= spec_shaped_seq(text@));
    let mut result = String::new();
    if has_rtl_chars(&shaped) {
        let mut j: usize = n;
        while j > 0
            invariant
                n == shaped@.len(),
                shaped@ == spec_shaped_seq(text@),
                j <= n,
                result@.len() == n - j,
                forall|k: int| 0 <= k < n - j ==> result@[k] == shaped@[n - 1 - k],
            decreases j,
        {
            j -= 1;
            push_char(&mut result, shaped[j]);
        }
        assert(result@ =~= shaped@.reverse());
    } else {
        let mut j: usize = 0;
        while j < n
            invariant
                n == shaped@.len(),
                shaped@ == spec_shaped_seq(text@),
                j <= n,
                result@ == shaped@.subrange(0, j as int),
            decreases n - j,
        {
            push_char(&mut result, shaped[j]);
            assert(result@ =~= shaped@.subrange(0, j + 1));
            j += 1;
        }
        assert(result@ =~= shaped@);
    }
    result
}

} // verus!
