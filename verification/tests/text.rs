use arylterm::text::{
    chars_of, parse_number, parse_u16, same_text, string_of, to_decimal, NumberError,
};

#[test]
fn characters_and_back() {
    let v = chars_of("aé€");
    assert_eq!(v, vec!['a', 'é', '€']);
    assert_eq!(string_of(&v, 0, 3), "aé€");
    assert_eq!(string_of(&v, 1, 2), "é");
    assert_eq!(string_of(&v, 2, 2), "");
}

#[test]
fn same_text_compares_characters() {
    assert!(same_text("", ""));
    assert!(same_text("büro", "büro"));
    assert!(!same_text("abc", "abd"));
    assert!(!same_text("abc", "ab"));
}

#[test]
fn decimal_reads_back() {
    for n in 0..=u16::MAX {
        let s = to_decimal(n);
        assert_eq!(s, n.to_string());
        assert_eq!(parse_u16(&s), Ok(n));
    }
}

#[test]
fn numbers_are_read_as_the_standard_library_reads_them() {
    let texts = [
        "", "+", "-", "0", "00022", "+22", "-22", "-0", "++2", "2+", " 2", "2 ", "٣", "65535",
        "65536", "65535x", "65536x", "99999999999999999999", "4294967295", "4294967296",
        "000000000000000000000000000001", "1e3", "0x10", "+é",
    ];
    for text in texts {
        match (parse_u16(text), text.parse::<u16>()) {
            (Ok(a), Ok(b)) => assert_eq!(a, b),
            (Err(a), Err(b)) => assert_eq!(a.message(), b.to_string(), "{text}"),
            (a, b) => panic!("{text}: {:?} {:?}", a, b),
        }
        match (parse_number(text, u32::MAX), text.parse::<u32>()) {
            (Ok(a), Ok(b)) => assert_eq!(a, b),
            (Err(a), Err(b)) => assert_eq!(a.message(), b.to_string(), "{text}"),
            (a, b) => panic!("{text}: {:?} {:?}", a, b),
        }
    }
}

#[test]
fn numbers_keep_to_their_bound() {
    assert_eq!(parse_number("100", 100), Ok(100));
    assert_eq!(parse_number("101", 100), Err(NumberError::Overflow));
}
