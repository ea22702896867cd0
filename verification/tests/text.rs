use odilf_site::text::{
    char_len, contains_text, count_words, is_whitespace, prefix, starts_with_char, to_chars,
};

#[test]
fn white_space_is_unicode_white_space() {
    for c in [' ', '\t', '\n', '\r', '\u{0B}', '\u{0C}', '\u{85}', '\u{A0}', '\u{1680}', '\u{2003}', '\u{2028}', '\u{2029}', '\u{202F}', '\u{205F}', '\u{3000}'] {
        assert!(is_whitespace(c), "{c:?}");
    }
    for c in ['a', '0', '-', '\u{200B}', '\u{FEFF}', '\u{180E}', '\u{1F}', '\u{0E}'] {
        assert!(!is_whitespace(c), "{c:?}");
    }
    for code in 0..=0x3100u32 {
        if let Some(c) = char::from_u32(code) {
            assert_eq!(is_whitespace(c), c.is_whitespace(), "{code:#x}");
        }
    }
}

#[test]
fn words_are_delimited_by_white_space() {
    assert_eq!(count_words(""), 0);
    assert_eq!(count_words("   \n\t "), 0);
    assert_eq!(count_words("word"), 1);
    assert_eq!(count_words("  hello   world\tfoo\n"), 3);
    assert_eq!(count_words("uno\u{A0}dos\u{3000}tres"), 3);
    assert_eq!(count_words("e^{i\\pi} = -1"), 3);
    let text = "The quick brown fox jumps over the lazy dog";
    assert_eq!(count_words(text), text.split_whitespace().count());
}

#[test]
fn prefixes_are_counted_in_characters() {
    assert_eq!(prefix("hello", 0), "");
    assert_eq!(prefix("hello", 2), "he");
    assert_eq!(prefix("hello", 5), "hello");
    assert_eq!(prefix("hello", 9), "hello");
    assert_eq!(prefix("héllo wörld", 2), "hé");
    assert_eq!(prefix("日本語のテキスト", 3), "日本語");
    assert_eq!(char_len("héllo"), 5);
    assert_eq!(char_len(""), 0);
}

#[test]
fn first_characters() {
    assert!(starts_with_char("/static/a.png", '/'));
    assert!(!starts_with_char("static/a.png", '/'));
    assert!(!starts_with_char("", '/'));
    assert!(starts_with_char("é", 'é'));
}

#[test]
fn characters_of_a_text() {
    assert_eq!(to_chars("añb"), vec!['a', 'ñ', 'b']);
    assert!(to_chars("").is_empty());
}

#[test]
fn parts_of_a_text_are_found() {
    assert!(contains_text("en.wikipedia.org", "wikipedia.org"));
    assert!(contains_text("wikipedia.org", "wikipedia.org"));
    assert!(contains_text("wikipedia.org.example", "wikipedia.org"));
    assert!(!contains_text("wikipedia.com", "wikipedia.org"));
    assert!(!contains_text("org", "wikipedia.org"));
    assert!(contains_text("anything", ""));
    assert!(contains_text("", ""));
    assert!(!contains_text("", "a"));
    assert!(contains_text("aaab", "aab"));
}
