use testing_library_dom::text::{
    chars_eq, chars_of, clone_chars, extend_chars, extend_str, is_whitespace_char, join_chars,
    split_chars, str_eq, string_of, to_ascii_lower, to_lower_char, trim_chars,
};

fn chars(text: &str) -> Vec<char> {
    text.chars().collect()
}

#[test]
fn white_space_is_what_unicode_says() {
    for code in 0..=0x10FFFF_u32 {
        if let Some(c) = char::from_u32(code) {
            assert_eq!(c.is_whitespace(), is_whitespace_char(c), "U+{code:04X}");
        }
    }
}

#[test]
fn small_letters_are_made_of_ascii_capitals_only() {
    for code in 0..=0x10FFFF_u32 {
        if let Some(c) = char::from_u32(code) {
            assert_eq!(c.to_ascii_lowercase(), to_lower_char(c), "U+{code:04X}");
        }
    }
    assert_eq!(chars("straße äÄ x1-_"), to_ascii_lower(&chars("StraßE äÄ X1-_")));
}

#[test]
fn texts_are_trimmed_at_both_ends() {
    for text in [
        "",
        " ",
        "a",
        " a",
        "a ",
        "  a  b  ",
        "\t\n a\u{a0}b \r\n",
        "\u{3000}\u{2003}x\u{85}\u{1680}",
        " \u{200b} ",
        "no space",
    ] {
        assert_eq!(chars(text.trim()), trim_chars(&chars(text)), "{text:?}");
    }
}

#[test]
fn texts_are_split_at_every_separator() {
    for text in ["", " ", "a", "a b", " a  b ", "a\tb c", "\n", "a \u{a0}b"] {
        let at_spaces: Vec<Vec<char>> = text.split(' ').map(chars).collect();
        assert_eq!(at_spaces, split_chars(&chars(text), false), "{text:?}");
        let at_white_space: Vec<Vec<char>> = text.split(char::is_whitespace).map(chars).collect();
        assert_eq!(at_white_space, split_chars(&chars(text), true), "{text:?}");
    }
    assert_eq!(vec![chars(""), chars("a"), chars(""), chars("b")], split_chars(&chars(" a  b"), false));
}

#[test]
fn pieces_are_joined_with_the_separator_between_them() {
    let join = |pieces: &[&str], separator: &str| -> String {
        let pieces: Vec<Vec<char>> = pieces.iter().map(|piece| chars(piece)).collect();
        join_chars(&pieces, &chars(separator)).into_iter().collect()
    };
    assert_eq!("", join(&[], ", "));
    assert_eq!("a", join(&["a"], ", "));
    assert_eq!("a, b", join(&["a", "b"], ", "));
    assert_eq!("a,,b,", join(&["a", "", "b", ""], ","));
    assert_eq!("ab", join(&["a", "b"], ""));
}

#[test]
fn texts_go_to_characters_and_back() {
    for text in ["", "a", "héllo wörld", "\u{10FFFF}\0"] {
        assert_eq!(chars(text), chars_of(text));
        assert_eq!(text, string_of(&chars(text)));
        assert_eq!(chars(text), clone_chars(&chars(text)));
    }
    let mut out = chars("ab");
    extend_chars(&mut out, &chars("cd"));
    extend_str(&mut out, "éf");
    assert_eq!(chars("abcdéf"), out);
    assert!(chars_eq(&chars("abc"), &chars("abc")));
    assert!(!chars_eq(&chars("abc"), &chars("abd")));
    assert!(!chars_eq(&chars("abc"), &chars("ab")));
    assert!(chars_eq(&chars(""), &chars("")));
    assert!(str_eq("é", "é"));
    assert!(!str_eq("e", "é"));
    assert!(!str_eq("a", "A"));
}
