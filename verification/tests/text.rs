use usdt_impl::text::{
    decimal_string, ident_char, ident_start, is_valid_identifier, quote_string, replace_all,
    to_chars,
};

#[test]
fn identifiers() {
    for name in ["a", "_", "A9", "does__it", "_x_", "Z_z_0"] {
        assert!(is_valid_identifier(name), "{}", name);
    }
    for name in ["", "9a", "a-b", "a b", "a.b", "\u{e9}t\u{e9}", "a\n", " a"] {
        assert!(!is_valid_identifier(name), "{:?}", name);
    }
    assert!(ident_start('_') && ident_start('a') && ident_start('Z'));
    assert!(!ident_start('0') && !ident_start('-') && !ident_start('{'));
    assert!(ident_char('0') && ident_char('9') && ident_char('_'));
    assert!(!ident_char(' ') && !ident_char('/') && !ident_char(':') && !ident_char('`'));
    assert!(!ident_char('@') && !ident_char('['));
}

#[test]
fn characters_of_a_string() {
    assert_eq!(to_chars("a\u{e9}b"), vec!['a', '\u{e9}', 'b']);
    assert_eq!(to_chars(""), Vec::<char>::new());
}

#[test]
fn decimal_notation() {
    assert_eq!(decimal_string(0), "0");
    assert_eq!(decimal_string(5), "5");
    assert_eq!(decimal_string(9), "9");
    assert_eq!(decimal_string(10), "10");
    assert_eq!(decimal_string(1234567890), "1234567890");
    assert_eq!(decimal_string(usize::MAX), usize::MAX.to_string());
}

#[test]
fn replacement_scans_from_the_left() {
    assert_eq!(replace_all("a__b", "__", "-"), "a-b");
    assert_eq!(replace_all("aaa", "aa", "b"), "ba");
    assert_eq!(replace_all("{provider}_{probe}", "{provider}", "test"), "test_{probe}");
    assert_eq!(replace_all("{probe}{probe}", "{probe}", "x"), "xx");
    assert_eq!(replace_all("abc", "abcd", "x"), "abc");
    assert_eq!(replace_all("abc", "c", ""), "ab");
    assert_eq!(replace_all("", "a", "b"), "");
    assert_eq!(replace_all("abc", "", "x"), "abc");
    assert_eq!(replace_all("a\u{e9}a", "\u{e9}", "e"), "aea");
    for (s, pat, to) in [("a___b__", "__", "-"), ("xyxyx", "xyx", "z"), ("abab", "ab", "abab")] {
        assert_eq!(replace_all(s, pat, to), s.replace(pat, to));
    }
}

#[test]
fn string_literals_escape_what_must_be_escaped() {
    assert_eq!(quote_string(""), "\"\"");
    assert_eq!(quote_string("nop"), "\"nop\"");
    assert_eq!(quote_string("a\"b"), "\"a\\\"b\"");
    assert_eq!(quote_string("a\\b"), "\"a\\\\b\"");
    assert_eq!(quote_string("a\nb\tc\rd"), "\"a\\nb\\tc\\rd\"");
    assert_eq!(quote_string("'\u{e9}'"), "\"'\u{e9}'\"");
}

#[test]
fn string_literals_lex_to_their_value() {
    for value in ["", "nop", "a\"b", "a\\b", "a\nb\tc\rd", "   .asciz \"stapsdt\"   // x\n"] {
        let quoted = quote_string(value);
        let tokens: proc_macro2::TokenStream = quoted.parse().unwrap();
        let lexed: Vec<String> = tokens.into_iter().map(|tree| tree.to_string()).collect();
        assert_eq!(lexed, vec![proc_macro2::Literal::string(value).to_string()]);
    }
}
