use atranscoder::config::api_keys;
use atranscoder::text::{
    chars_of, clone_text, parse_u64, parse_usize, push_decimal, push_hexadecimal,
    push_signed_decimal, same, to_lower,
};

#[test]
fn numbers_are_written_as_std_writes_them() {
    for n in [0u64, 7, 10, 99, 100, 1234567890, u64::MAX] {
        let mut dec = String::from("n=");
        push_decimal(&mut dec, n);
        assert_eq!(dec, format!("n={}", n));
        let mut hex = String::from("0x");
        push_hexadecimal(&mut hex, n);
        assert_eq!(hex, format!("0x{:x}", n));
    }
    for n in [0i64, -1, 1, -10, i64::MIN, i64::MAX] {
        let mut dec = String::new();
        push_signed_decimal(&mut dec, n);
        assert_eq!(dec, n.to_string());
    }
}

#[test]
fn numbers_are_parsed_as_std_parses_them() {
    for s in ["0", "00", "42", "+42", "++42", "-42", "4 2", "", "+", "٣", "18446744073709551615",
        "18446744073709551616", "000000000000000000000000001"]
    {
        assert_eq!(parse_u64(s), s.parse::<u64>().ok());
        assert_eq!(parse_usize(s), s.parse::<usize>().ok());
    }
    assert_eq!(parse_u64("1234"), Some(1234));
}

#[test]
fn characters_are_taken_one_by_one() {
    assert_eq!(chars_of("aé✓"), vec!['a', 'é', '✓']);
    assert_eq!(chars_of(""), Vec::<char>::new());
}

#[test]
fn strings_are_compared_and_copied() {
    assert!(same("mono", "mono"));
    assert!(!same("mono", "monó"));
    assert!(!same("mono", "mon"));
    assert!(same("", ""));
    assert_eq!(clone_text(&Some("x".to_string())), Some("x".to_string()));
    assert_eq!(clone_text(&None), None);
}

#[test]
fn only_ascii_capitals_are_lowered() {
    for c in ['A', 'Z', 'a', 'z', '@', '[', '0', 'É', 'K', '\u{212a}'] {
        assert_eq!(to_lower(c), c.to_ascii_lowercase());
    }
}

#[test]
fn white_space_is_trimmed_as_std_trims_it() {
    for s in ["  a b  ", "   ", "x", "\t\n x\u{a0}\u{2028}", "\u{1680}\u{205f}y\u{202f}"] {
        let expected: Vec<String> =
            if s.trim().is_empty() { vec![] } else { vec![s.trim().to_string()] };
        assert_eq!(api_keys(Some(s)), expected);
    }
    for code in 0u32..0x3100 {
        if let Some(c) = char::from_u32(code) {
            if c != ',' {
                let s = format!("{}x{}", c, c);
                assert_eq!(api_keys(Some(&s)), vec![s.trim().to_string()]);
            }
        }
    }
}
