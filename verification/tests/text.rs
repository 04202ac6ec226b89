//! White space and the separator.

use syn_select::text::{char_is_whitespace, chars_of, split_on_separator, str_is_blank};

#[test]
fn white_space_is_what_the_standard_library_trims() {
    let mut code: u32 = 0;
    let mut seen: u32 = 0;
    while code <= 0x10FFFF {
        if let Some(c) = char::from_u32(code) {
            assert_eq!(char_is_whitespace(c), c.is_whitespace(), "U+{:04X}", code);
            if char_is_whitespace(c) {
                seen += 1;
            }
        }
        code += 1;
    }
    assert_eq!(seen, 25);
}

#[test]
fn blank_is_white_space_only() {
    assert!(str_is_blank(""));
    assert!(str_is_blank(" "));
    assert!(str_is_blank(" \t\r\n\u{3000}"));
    assert!(!str_is_blank("a"));
    assert!(!str_is_blank("  a  "));
    assert!(!str_is_blank("   _"));
    assert!(!str_is_blank("::"));
}

#[test]
fn blank_is_what_trims_to_nothing() {
    for text in ["", " ", "\u{85}", " x", "\u{200b}", "\u{feff}", "\u{2000}\u{200a}", "\0"] {
        assert_eq!(str_is_blank(text), text.trim() == "", "{:?}", text);
    }
}

#[test]
fn a_text_falls_into_pieces_at_each_separator() {
    assert_eq!(split_on_separator("a::b::c"), vec!["a", "b", "c"]);
    assert_eq!(split_on_separator("a"), vec!["a"]);
    assert_eq!(split_on_separator(""), vec![""]);
    assert_eq!(split_on_separator("a::"), vec!["a", ""]);
    assert_eq!(split_on_separator("::a"), vec!["", "a"]);
    assert_eq!(split_on_separator("::"), vec!["", ""]);
    assert_eq!(split_on_separator("::::"), vec!["", "", ""]);
}

#[test]
fn single_colons_are_no_separator() {
    assert_eq!(split_on_separator(":"), vec![":"]);
    assert_eq!(split_on_separator("a:b"), vec!["a:b"]);
    assert_eq!(split_on_separator("a:::b"), vec!["a", ":b"]);
    assert_eq!(split_on_separator(":::"), vec!["", ":"]);
    assert_eq!(split_on_separator("a: :b"), vec!["a: :b"]);
}

#[test]
fn pieces_are_cut_by_character_not_by_byte() {
    assert_eq!(split_on_separator("é::名前::ß"), vec!["é", "名前", "ß"]);
    assert_eq!(split_on_separator("名::"), vec!["名", ""]);
}

#[test]
fn splitting_agrees_with_the_standard_library() {
    for text in ["", "a", "a::b", ":::::", "a:::b::::c:", "::a::", "x::é:::y", " :: "] {
        let expected: Vec<&str> = text.split("::").collect();
        assert_eq!(split_on_separator(text), expected, "{:?}", text);
    }
}

#[test]
fn the_characters_of_a_text_come_in_order() {
    assert_eq!(chars_of("aé:"), vec!['a', 'é', ':']);
    assert_eq!(chars_of(""), Vec::<char>::new());
}
