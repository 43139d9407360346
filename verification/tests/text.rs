use sdmxblaze::text::{
    chars_of, contains_chars, is_whitespace, skip_leading_char, split_chars, string_of, trim_chars,
};

fn chars(text: &str) -> Vec<char> {
    text.chars().collect()
}

#[test]
fn white_space_is_what_the_standard_library_calls_white_space() {
    for n in 0..=0x10ffff_u32 {
        if let Some(c) = char::from_u32(n) {
            assert_eq!(is_whitespace(c), c.is_whitespace(), "U+{:04X}", n);
        }
    }
}

#[test]
fn strings_and_characters_convert_both_ways() {
    for text in ["", "a", "a.b", "\u{e9}\u{1f600}\u{0}"] {
        assert_eq!(chars_of(text), chars(text));
        assert_eq!(string_of(&chars(text)), text);
    }
}

#[test]
fn splitting_gives_one_piece_more_than_separators() {
    for text in ["", ".", "a", "a.b", ".a", "a.", "a..b", "..", "stats.oecd.org"] {
        let expected: Vec<Vec<char>> = text.split('.').map(chars).collect();
        assert_eq!(split_chars(&chars(text), '.'), expected, "{:?}", text);
    }
}

#[test]
fn trimming_drops_white_space_at_both_ends_only() {
    for text in ["", " ", "a", " a b ", "\t\r\n a \u{3000}", "a \u{feff} ", "\u{a0}\u{85}"] {
        assert_eq!(trim_chars(&chars(text)), chars(text.trim()), "{:?}", text);
    }
}

#[test]
fn leading_marks_are_skipped() {
    for text in ["", "x", "xxa", "axx", "xxx", "ax"] {
        let expected = chars(text.trim_start_matches('x'));
        assert_eq!(skip_leading_char(&chars(text), 'x'), expected, "{:?}", text);
    }
}

#[test]
fn containment_is_substring_search() {
    let hays = ["", "a", "application/json", "xapplication/jsonx", "application/jso", "aab"];
    let needles = ["", "a", "ab", "application/json", "b", "aab", "aaab"];
    for hay in hays {
        for needle in needles {
            assert_eq!(
                contains_chars(&chars(hay), &chars(needle)),
                hay.contains(needle),
                "{:?} in {:?}",
                needle,
                hay
            );
        }
    }
}
