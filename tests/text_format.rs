use hash_compare::text::{decimal_text, pad_left, pad_right, repeat_text};

#[test]
fn decimal_numerals() {
    assert_eq!(decimal_text(0), "0");
    assert_eq!(decimal_text(7), "7");
    assert_eq!(decimal_text(10), "10");
    assert_eq!(decimal_text(1234567890), "1234567890");
    assert_eq!(decimal_text(u128::MAX), u128::MAX.to_string());
}

#[test]
fn repeated_rules() {
    assert_eq!(repeat_text("=", 0), "");
    assert_eq!(repeat_text("=", 3), "===");
    assert_eq!(repeat_text("ab", 2), "abab");
}

#[test]
fn column_padding() {
    assert_eq!(pad_left("100", 6), "   100");
    assert_eq!(pad_left("150000", 6), "150000");
    assert_eq!(pad_left("1234567", 6), "1234567");
    assert_eq!(pad_right("ab", 5), "ab   ");
    assert_eq!(pad_right("μs", 3), "μs ");
    assert_eq!(pad_right("abcdef", 3), "abcdef");
}
