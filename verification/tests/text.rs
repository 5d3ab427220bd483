use cpub::text::{
    char_is_whitespace, decimal_text, is_invalid_string, order_of, zero_padded_text,
};

#[test]
fn whitespace_agrees_with_the_standard_library_on_every_character() {
    let mut code: u32 = 0;
    while code <= 0x10FFFF {
        if let Some(c) = char::from_u32(code) {
            assert_eq!(char_is_whitespace(c), c.is_whitespace(), "U+{:04X}", code);
        }
        code += 1;
    }
}

#[test]
fn blank_texts_are_invalid() {
    assert!(is_invalid_string(""));
    assert!(is_invalid_string("   "));
    assert!(is_invalid_string("\t\n\u{3000}"));
    assert!(!is_invalid_string(" a "));
    assert!(!is_invalid_string("Title"));
}

#[test]
fn decimal_numerals() {
    assert_eq!(decimal_text(0), "0");
    assert_eq!(decimal_text(7), "7");
    assert_eq!(decimal_text(10), "10");
    assert_eq!(decimal_text(4294967295), "4294967295");
}

#[test]
fn zero_padding_fills_up_to_the_width_and_never_cuts() {
    assert_eq!(zero_padded_text(1, 6), "000001");
    assert_eq!(zero_padded_text(123456, 6), "123456");
    assert_eq!(zero_padded_text(1234567, 6), "1234567");
    assert_eq!(zero_padded_text(0, 0), "0");
}

#[test]
fn texts_are_ordered_as_the_standard_library_orders_them() {
    let texts = ["", "a", "ab", "abc", "b", "B", "\u{e9}", "\u{1F5A4}", "a\u{e9}", "aa", "z"];
    for a in texts {
        for b in texts {
            let left: Vec<char> = a.chars().collect();
            let right: Vec<char> = b.chars().collect();
            assert_eq!(order_of(&left, &right), (a < b, a == b, a > b), "{:?} {:?}", a, b);
        }
    }
}
