use wasm_video::classify::{in_target_script, is_connecting, is_rtl_range};
use wasm_video::shape::{
    get_final_form, get_initial_form, get_isolated_form, get_medial_form, is_rtl_text,
    reshape_arabic_char, reshape_arabic_text, select_form, VisualForm,
};

fn ch(code: u32) -> char {
    char::from_u32(code).unwrap()
}

#[test]
fn target_script_block_boundaries() {
    assert!(in_target_script(ch(0x0600)));
    assert!(in_target_script(ch(0x06FF)));
    assert!(in_target_script(ch(0x0628)));
    assert!(!in_target_script(ch(0x05FF)));
    assert!(!in_target_script(ch(0x0700)));
    assert!(!in_target_script('A'));
}

#[test]
fn connecting_letter_range_boundaries() {
    assert!(is_connecting(ch(0x0621)));
    assert!(is_connecting(ch(0x064A)));
    assert!(is_connecting(ch(0x0628)));
    assert!(!is_connecting(ch(0x0620)));
    assert!(!is_connecting(ch(0x064B)));
    assert!(!is_connecting('x'));
}

#[test]
fn non_connecting_letters_are_excluded() {
    // alef, dal, thal, ra, zain, waw never connect to a following letter
    for code in [0x0627, 0x062F, 0x0630, 0x0631, 0x0632, 0x0648] {
        assert!(!is_connecting(ch(code)), "{code:#x} must not connect");
        assert!(in_target_script(ch(code)));
    }
}

#[test]
fn classification_is_repeatable() {
    let c = ch(0x0628);
    assert_eq!(in_target_script(c), in_target_script(c));
    assert_eq!(is_connecting(c), is_connecting(c));
    assert_eq!(is_rtl_range(c), is_rtl_range(c));
}

#[test]
fn rtl_ranges_cover_all_four_blocks() {
    assert!(is_rtl_range(ch(0x0600)));
    assert!(is_rtl_range(ch(0x06FF)));
    assert!(is_rtl_range(ch(0x0750)));
    assert!(is_rtl_range(ch(0x077F)));
    assert!(is_rtl_range(ch(0xFB50)));
    assert!(is_rtl_range(ch(0xFDFF)));
    assert!(is_rtl_range(ch(0xFE70)));
    assert!(is_rtl_range(ch(0xFEFF)));
    assert!(!is_rtl_range(ch(0x05FF)));
    assert!(!is_rtl_range(ch(0x0700)));
    assert!(!is_rtl_range(ch(0x074F)));
    assert!(!is_rtl_range('z'));
}

#[test]
fn rtl_text_detection() {
    assert!(!is_rtl_text(""));
    assert!(!is_rtl_text("Hello"));
    assert!(is_rtl_text("\u{0628}"));
    assert!(is_rtl_text("ab\u{0750}cd"));
    assert!(is_rtl_text("\u{FB50}"));
    assert!(is_rtl_text("\u{FE70}"));
}

#[test]
fn empty_input_yields_empty_output() {
    assert_eq!(reshape_arabic_text(""), "");
}

#[test]
fn latin_word_passes_through_unreversed() {
    assert_eq!(reshape_arabic_text("Hello"), "Hello");
}

#[test]
fn single_isolated_letter_takes_rtl_path() {
    let s = "\u{0628}";
    // the letter is in an RTL range, so the reversal path is taken;
    // reversing a single character is a no-op
    assert!(is_rtl_text(s));
    assert_eq!(reshape_arabic_text(s), s);
    assert_eq!(
        reshape_arabic_char(ch(0x0628), None, None),
        ch(0x0628)
    );
}

#[test]
fn three_letter_run_middle_is_medial_and_whole_run_reverses() {
    // ba, ta, tha: all three are connecting letters
    let (b, t, th) = (ch(0x0628), ch(0x062A), ch(0x062B));
    assert!(is_connecting(b) && is_connecting(t) && is_connecting(th));
    // the middle letter has both neighbours connecting: medial context
    assert_eq!(select_form(true, true), VisualForm::Medial);
    // the identity form table keeps the middle letter's value
    assert_eq!(reshape_arabic_char(t, Some(b), Some(th)), t);
    // the whole run is reversed because it contains RTL characters
    let input: String = [b, t, th].iter().collect();
    let expected: String = [th, t, b].iter().collect();
    assert_eq!(reshape_arabic_text(&input), expected);
}

#[test]
fn mixed_text_reverses_whole_string() {
    let b = ch(0x0628);
    let input: String = ['a', 'b', b].iter().collect();
    let expected: String = [b, 'b', 'a'].iter().collect();
    assert_eq!(reshape_arabic_text(&input), expected);
}

#[test]
fn length_is_preserved() {
    for s in ["", "x", "Hello", "ab\u{0628}cd", "\u{0628}\u{062A}\u{062B}", "a b c"] {
        assert_eq!(
            reshape_arabic_text(s).chars().count(),
            s.chars().count(),
            "length must be preserved for {s:?}"
        );
    }
}

#[test]
fn non_target_characters_keep_their_values() {
    let b = ch(0x0628);
    let input: String = ['<', '1', b, 'Z'].iter().collect();
    let output = reshape_arabic_text(&input);
    // reversal repositions but never alters the non-target characters
    let expected: String = ['Z', b, '1', '<'].iter().collect();
    assert_eq!(output, expected);
}

#[test]
fn form_table_is_identity() {
    let b = ch(0x0628);
    assert_eq!(get_isolated_form(b), b);
    assert_eq!(get_initial_form(b), b);
    assert_eq!(get_medial_form(b), b);
    assert_eq!(get_final_form(b), b);
}

#[test]
fn shape_char_contexts() {
    let b = ch(0x0628);
    let alef = ch(0x0627);
    // neighbour that does not connect leaves the context unconnected
    assert_eq!(reshape_arabic_char(b, Some(alef), None), b);
    // non-target characters pass through whatever the neighbours are
    assert_eq!(reshape_arabic_char('Q', Some(b), Some(b)), 'Q');
}
