use blcvoice::text::{
    ascii_lower_char, char_utf8_len, chars_of, contains_char, digit_char, i64_to_decimal,
    is_blank_str, is_control_char, is_whitespace_char, prefix_byte_offsets, str_byte_len, str_eq,
    str_eq_ignore_ascii_case, string_from_chars, string_from_range, string_from_reversed,
    to_ascii_lowercase, trim_bounds, trimmed, u64_to_decimal, usize_to_decimal,
};

fn sample_chars() -> impl Iterator<Item = char> {
    (0u32..0x3100)
        .chain(0xFEF0..0x10100)
        .chain(0x10FFF0..=0x10FFFF)
        .filter_map(char::from_u32)
}

const SAMPLES: [&str; 8] = [
    "",
    "   ",
    "  hello world \t\n",
    "\u{3000}Grüße\u{2029}",
    "ä€𝄞x",
    "MiXeD Case ÄÖ",
    "\u{85}\u{a0}edge\u{202f}",
    "tab\tinside",
];

#[test]
fn character_classes_agree_with_std() {
    for c in sample_chars() {
        assert_eq!(is_whitespace_char(c), c.is_whitespace(), "{:?}", c);
        assert_eq!(is_control_char(c), c.is_control(), "{:?}", c);
        assert_eq!(ascii_lower_char(c), c.to_ascii_lowercase(), "{:?}", c);
        assert_eq!(char_utf8_len(c), c.len_utf8(), "{:?}", c);
    }
}

#[test]
fn string_operations_agree_with_std() {
    for s in SAMPLES {
        assert_eq!(chars_of(s), s.chars().collect::<Vec<_>>());
        assert_eq!(trimmed(s), s.trim());
        assert_eq!(is_blank_str(s), s.trim().is_empty());
        assert_eq!(to_ascii_lowercase(s), s.to_ascii_lowercase());
        assert_eq!(str_byte_len(s), s.len());
        for other in SAMPLES {
            assert_eq!(str_eq(s, other), s == other);
            assert_eq!(str_eq_ignore_ascii_case(s, other), s.eq_ignore_ascii_case(other));
        }
        for c in ['e', ' ', '𝄞', 'z'] {
            assert_eq!(contains_char(s, c), s.contains(c));
        }
    }
}

#[test]
fn trim_bounds_delimit_the_trimmed_text() {
    let chars: Vec<char> = "  ab c \n".chars().collect();
    assert_eq!(trim_bounds(&chars), (2, 6));
    assert_eq!(string_from_range(&chars, 2, 6), "ab c");
    let blank: Vec<char> = " \t ".chars().collect();
    let (start, end) = trim_bounds(&blank);
    assert_eq!(start, end);
}

#[test]
fn strings_are_built_from_characters() {
    let chars: Vec<char> = "abc€".chars().collect();
    assert_eq!(string_from_chars(&chars), "abc€");
    assert_eq!(string_from_range(&chars, 1, 3), "bc");
    assert_eq!(string_from_reversed(&chars), "€cba");
    assert_eq!(string_from_chars(&Vec::new()), "");
}

#[test]
fn decimal_renderings_agree_with_std() {
    for n in [0u64, 7, 10, 99, 100, 12_345, u64::MAX] {
        assert_eq!(u64_to_decimal(n), n.to_string());
    }
    assert_eq!(usize_to_decimal(usize::MAX), usize::MAX.to_string());
    for n in [0i64, 5, -5, -10, 1_000_000, i64::MAX, i64::MIN] {
        assert_eq!(i64_to_decimal(n), n.to_string());
    }
    let digits: String = (0..16).map(digit_char).collect();
    assert_eq!(digits, "0123456789ABCDEF");
}

#[test]
fn prefix_offsets_are_character_boundaries() {
    let text = "aä€𝄞";
    let chars: Vec<char> = text.chars().collect();
    let offsets = prefix_byte_offsets(&chars, text.len());
    let expected: Vec<usize> = text
        .char_indices()
        .map(|(index, _)| index)
        .chain(std::iter::once(text.len()))
        .collect();
    assert_eq!(offsets, expected);
    assert_eq!(offsets, vec![0, 1, 3, 6, 10]);
}
