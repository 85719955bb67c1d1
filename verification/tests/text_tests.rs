use openvmm::text::{chars_of, decimal_digit, parse_u64, parse_usize, string_from_chars, usize_to_decimal, white_space};

fn chars(s: &str) -> Vec<char> {
    s.chars().collect()
}

#[test]
fn decimal_formatting_matches_to_string() {
    for n in [0usize, 7, 9, 10, 99, 100, 12345, 4294967296, usize::MAX] {
        assert_eq!(usize_to_decimal(n), n.to_string());
    }
}

#[test]
fn parse_usize_accepts_what_std_accepts() {
    let cases = [
        "0", "42", "+7", "0012", "", "+", "-", "-1", "-0", "1 ", " 1", "1_000", "١٢", "12a",
        "18446744073709551615", "18446744073709551616", "99999999999999999999999",
    ];
    for c in cases {
        assert_eq!(parse_usize(&chars(c)), c.parse::<usize>().ok(), "input {:?}", c);
        assert_eq!(parse_u64(&chars(c)), c.parse::<u64>().ok(), "input {:?}", c);
    }
}

#[test]
fn decimal_parse_roundtrip_on_values() {
    for n in [0usize, 1, 10, 65535, 1000000007, usize::MAX] {
        assert_eq!(parse_usize(&chars(&usize_to_decimal(n))), Some(n));
    }
}

#[test]
fn chars_and_strings_convert_both_ways() {
    let s = "a\u{e9}\u{1F600}z";
    let v = chars_of(s);
    assert_eq!(v, vec!['a', '\u{e9}', '\u{1F600}', 'z']);
    assert_eq!(string_from_chars(&v), s.to_string());
    assert_eq!(chars_of(""), Vec::<char>::new());
}

#[test]
fn white_space_is_the_regex_space_class() {
    let re = regex::Regex::new(r"^\s$").unwrap();
    for u in 0u32..=0x10FFFF {
        if let Some(c) = char::from_u32(u) {
            assert_eq!(white_space(c), re.is_match(&c.to_string()), "char {:#x}", u);
        }
    }
}

#[test]
fn decimal_digit_is_the_regex_digit_class() {
    let re = regex::Regex::new(r"^\d$").unwrap();
    for u in 0u32..=0x10FFFF {
        if let Some(c) = char::from_u32(u) {
            assert_eq!(decimal_digit(c), re.is_match(&c.to_string()), "char {:#x}", u);
        }
    }
}
