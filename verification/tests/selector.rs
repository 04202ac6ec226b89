//! Parsing selectors and writing them out again.

use syn_select::{select, ErrorKind, File, Selector, SelectorSegment};

fn kind_of(path: &str) -> String {
    match Selector::try_from(path) {
        Ok(selector) => format!("Ok({})", selector.render()),
        Err(error) => match error.kind() {
            ErrorKind::EmptyPath => "EmptyPath".to_string(),
            ErrorKind::InvalidSegment(segment) => format!("InvalidSegment({})", segment),
        },
    }
}

#[test]
fn a_path_parses_and_renders_as_written() {
    let selector = Selector::try_from("hello::world").unwrap();
    assert_eq!(selector.render(), "hello::world".to_owned());
    assert_eq!(selector.len(), 2);
}

#[test]
fn from_str_and_try_from_agree() {
    assert_eq!(Selector::from_str("a::_::c").unwrap().render(), "a::_::c");
    assert_eq!(Selector::try_from("a::_::c").unwrap().render(), "a::_::c");
    assert!(Selector::from_str("a::").is_err());
    assert!(Selector::try_from("a::").is_err());
}

#[test]
fn the_empty_path_is_refused() {
    assert_eq!(kind_of(""), "EmptyPath");
    assert_eq!(kind_of("   "), "EmptyPath");
}

#[test]
fn white_space_of_any_kind_is_an_empty_path() {
    assert_eq!(kind_of("\t\n\r"), "EmptyPath");
    assert_eq!(kind_of("\u{a0}\u{2003}\u{3000}"), "EmptyPath");
    assert_eq!(kind_of("\u{85}\u{1680}\u{2028}\u{2029}\u{202f}\u{205f}"), "EmptyPath");
}

#[test]
fn a_piece_that_is_no_identifier_is_refused() {
    assert_eq!(kind_of("a::1bad::c"), "InvalidSegment(1bad)");
}

#[test]
fn the_first_bad_piece_is_the_one_named() {
    assert_eq!(kind_of("a::1::2"), "InvalidSegment(1)");
    assert_eq!(kind_of("+::a::-"), "InvalidSegment(+)");
}

#[test]
fn an_empty_piece_is_refused() {
    assert_eq!(kind_of("a::"), "InvalidSegment()");
    assert_eq!(kind_of("::a"), "InvalidSegment()");
    assert_eq!(kind_of("a::::b"), "InvalidSegment()");
    assert_eq!(kind_of("::"), "InvalidSegment()");
}

#[test]
fn a_separator_is_taken_from_the_left() {
    assert_eq!(kind_of("a:::b"), "InvalidSegment(:b)");
    assert_eq!(kind_of("a:b"), "InvalidSegment(a:b)");
}

#[test]
fn a_blank_piece_of_a_path_is_an_invalid_segment() {
    assert_eq!(kind_of("a:: "), "InvalidSegment( )");
    assert_eq!(kind_of(" ::a"), "InvalidSegment( )");
}

#[test]
fn keywords_are_no_identifiers() {
    assert_eq!(kind_of("a::fn"), "InvalidSegment(fn)");
    assert_eq!(kind_of("self"), "InvalidSegment(self)");
    assert_eq!(kind_of("crate::a"), "InvalidSegment(crate)");
    assert_eq!(kind_of("a::struct::b"), "InvalidSegment(struct)");
}

#[test]
fn paths_with_generics_are_refused() {
    assert_eq!(kind_of("Vec<u8>"), "InvalidSegment(Vec<u8>)");
    assert_eq!(kind_of("a::b()"), "InvalidSegment(b())");
    assert_eq!(kind_of("a b"), "InvalidSegment(a b)");
    assert_eq!(kind_of("a::\"b\""), "InvalidSegment(\"b\")");
}

#[test]
fn raw_identifiers_keep_their_prefix() {
    assert_eq!(kind_of("r#fn::r#a"), "Ok(r#fn::r#a)");
}

#[test]
fn identifiers_may_hold_letters_of_any_script() {
    assert_eq!(kind_of("é::ß2::名前"), "Ok(é::ß2::名前)");
}

#[test]
fn underscores_alone_make_a_wildcard_only_when_single() {
    let selector = Selector::try_from("_::__::_a").unwrap();
    assert!(matches!(selector.part(0), SelectorSegment::Wildcard));
    assert!(matches!(selector.part(1), SelectorSegment::Ident(name) if name == "__"));
    assert!(matches!(selector.part(2), SelectorSegment::Ident(name) if name == "_a"));
    assert_eq!(selector.render(), "_::__::_a");
}

#[test]
fn the_identifier_is_kept_without_the_white_space_around_it() {
    let selector = Selector::try_from(" a ::\tb\n").unwrap();
    assert_eq!(selector.len(), 2);
    assert!(matches!(selector.part(0), SelectorSegment::Ident(name) if name == "a"));
    assert!(matches!(selector.part(1), SelectorSegment::Ident(name) if name == "b"));
    assert_eq!(selector.render(), "a::b");
}

#[test]
fn a_segment_is_read_from_one_piece() {
    assert!(matches!(SelectorSegment::from_str("_"), Ok(SelectorSegment::Wildcard)));
    assert!(matches!(
        SelectorSegment::from_str("x1"),
        Ok(SelectorSegment::Ident(name)) if name == "x1"
    ));
    let error = SelectorSegment::from_str("1x").unwrap_err();
    assert!(matches!(error.kind(), ErrorKind::InvalidSegment(text) if text == "1x"));
    assert!(SelectorSegment::from_str("").is_err());
    assert!(SelectorSegment::from_str("a::b").is_err());
}

#[test]
fn a_segment_renders_as_it_is_written() {
    assert_eq!(SelectorSegment::Wildcard.render(), "_");
    assert_eq!(SelectorSegment::Ident("abc".to_string()).render(), "abc");
}

#[test]
fn a_name_segment_asks_for_that_name_only() {
    let segment = SelectorSegment::Ident("abc".to_string());
    assert!(segment == "abc".to_string());
    assert!(segment != "abd".to_string());
    assert!(segment != "ab".to_string());
    assert!(segment != "".to_string());
}

#[test]
fn the_wildcard_asks_for_any_name() {
    assert!(SelectorSegment::Wildcard == "abc".to_string());
    assert!(SelectorSegment::Wildcard == "_".to_string());
    assert!(SelectorSegment::Wildcard == "".to_string());
}

#[test]
fn a_selector_has_its_segments_in_order() {
    let selector = Selector::try_from("a::b::c").unwrap();
    assert_eq!(selector.len(), 3);
    assert_eq!(selector.part(0).render(), "a");
    assert_eq!(selector.part(1).render(), "b");
    assert_eq!(selector.part(2).render(), "c");
}

#[test]
fn a_single_name_is_a_selector() {
    let selector = Selector::try_from("a").unwrap();
    assert_eq!(selector.len(), 1);
    assert_eq!(selector.render(), "a");
}

#[test]
fn a_copy_of_a_selector_renders_the_same() {
    let selector = Selector::try_from("a::_::c").unwrap();
    let copy = selector.clone();
    assert_eq!(copy.render(), selector.render());
    assert_eq!(copy.len(), 3);
    let segment = selector.part(0).clone();
    assert_eq!(segment.render(), "a");
}

#[test]
fn errors_say_what_went_wrong() {
    let empty = Selector::try_from("").unwrap_err();
    assert_eq!(empty.message(), "Empty path");
    let invalid = Selector::try_from("a::1bad::c").unwrap_err();
    assert_eq!(invalid.message(), "Invalid path segment: `1bad` is not an identifier");
}

#[test]
fn errors_are_made_of_their_kind() {
    let empty = syn_select::Error::empty_path();
    assert!(matches!(empty.kind(), ErrorKind::EmptyPath));
    let invalid = syn_select::Error::invalid_segment("x y".to_string());
    assert!(matches!(invalid.kind(), ErrorKind::InvalidSegment(text) if text == "x y"));
    let made = syn_select::Error::new(ErrorKind::InvalidSegment("".to_string()));
    assert_eq!(made.message(), "Invalid path segment: `` is not an identifier");
}

#[test]
fn select_hands_on_the_error_of_the_path() {
    let file = File { items: vec![] };
    assert!(matches!(select("", &file).unwrap_err().kind(), ErrorKind::EmptyPath));
    assert!(matches!(
        select("a::b c", &file).unwrap_err().kind(),
        ErrorKind::InvalidSegment(text) if text == "b c"
    ));
    assert_eq!(select("a::b", &file).unwrap(), vec![]);
}

/// Every short text over an alphabet of the characters that mean something
/// to a lexer is either parsed or refused, and never more than that.
#[test]
fn no_short_text_is_beyond_parsing() {
    let alphabet = [
        'a', '_', '1', ':', '/', '*', '!', '"', '\'', '\\', 'r', '#', 'b', '(', ')', '[', '{',
        ' ', '\n', 'é', '.', 'e', '0', 'x', '-',
    ];
    let mut texts: Vec<String> = vec![String::new()];
    let mut start = 0;
    let mut parsed = 0;
    let mut refused = 0;
    for _ in 0..3 {
        let end = texts.len();
        for i in start..end {
            for c in alphabet.iter() {
                let mut text = texts[i].clone();
                text.push(*c);
                texts.push(text);
            }
        }
        start = end;
    }
    for text in &texts {
        match Selector::try_from(text.as_str()) {
            Ok(selector) => {
                parsed += 1;
                assert!(selector.len() >= 1);
                assert!(Selector::try_from(selector.render().as_str()).is_ok(), "{:?}", text);
            }
            Err(_) => refused += 1,
        }
    }
    assert_eq!(parsed + refused, 1 + 25 + 25 * 25 + 25 * 25 * 25);
    assert!(parsed > 0);
}
