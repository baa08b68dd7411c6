use stockdata::text::{
    chars_of, find_char, is_whitespace, remove_char, remove_currency_marker, slice_of, spells,
    strip_leading_char, trimmed,
};

fn text(v: Vec<char>) -> String {
    v.into_iter().collect()
}

#[test]
fn white_space_is_what_the_standard_library_says() {
    for code in 0..=0x10FFFFu32 {
        if let Some(c) = char::from_u32(code) {
            assert_eq!(is_whitespace(c), c.is_whitespace(), "U+{:04X}", code);
        }
    }
}

#[test]
fn trimming_agrees_with_the_standard_library() {
    for s in ["", " ", "a", "  a b  ", "\t\u{3000}x\u{00A0}\n", "x  ", "  x", "\u{2003}", " - "] {
        assert_eq!(text(trimmed(&chars_of(s))), s.trim(), "{:?}", s);
    }
}

#[test]
fn removing_agrees_with_the_standard_library() {
    for s in ["", "CNY", "1CNY2", "CCNYNY", "CNCNY", "CNYCNY", "CN", "xCNYyCNYz"] {
        assert_eq!(text(remove_currency_marker(&chars_of(s))), s.replace("CNY", ""), "{:?}", s);
    }
    for s in ["", ",", "1,2,3", "a", ",,a,,"] {
        assert_eq!(text(remove_char(&chars_of(s), ',')), s.replace(',', ""), "{:?}", s);
    }
    for s in ["", "+", "++1+", "1+", "-+1"] {
        assert_eq!(
            text(strip_leading_char(&chars_of(s), '+')),
            s.trim_start_matches('+'),
            "{:?}",
            s
        );
    }
}

#[test]
fn characters_are_found_and_compared() {
    let v = chars_of("12.5M");
    assert_eq!(v, vec!['1', '2', '.', '5', 'M']);
    assert_eq!(find_char(&v, '.'), 2);
    assert_eq!(find_char(&v, 'M'), 4);
    assert_eq!(find_char(&v, 'K'), 5);
    assert_eq!(text(slice_of(&v, 1, 4)), "2.5");
    assert!(spells(&v, "12.5M"));
    assert!(!spells(&v, "12.5"));
    assert!(!spells(&v, "12.5K"));
    assert!(spells(&chars_of("买入"), "买入"));
    assert!(!spells(&chars_of("买入"), "卖出"));
}
