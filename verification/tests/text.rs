use container_launch::text::{
    chars_of, find_segment_end, join2, render_decimal, render_signed, same_text,
};

#[test]
fn chars_of_gives_characters_not_bytes() {
    assert_eq!(chars_of("a:b"), vec!['a', ':', 'b']);
    assert_eq!(chars_of("é!"), vec!['é', '!']);
    assert_eq!(chars_of(""), Vec::<char>::new());
}

#[test]
fn same_text_compares_characters() {
    assert!(same_text("token", "token"));
    assert!(!same_text("token", "Token"));
    assert!(!same_text("token", "tokens"));
    assert!(same_text("", ""));
}

#[test]
fn find_segment_end_stops_at_the_first_stop() {
    let chars = chars_of("ab:cd:e");
    assert_eq!(find_segment_end(&chars, 0, ':'), 2);
    assert_eq!(find_segment_end(&chars, 2, ':'), 2);
    assert_eq!(find_segment_end(&chars, 3, ':'), 5);
    assert_eq!(find_segment_end(&chars, 6, ':'), 7);
    assert_eq!(find_segment_end(&chars, 7, ':'), 7);
}

#[test]
fn join2_appends() {
    assert_eq!(join2("Bearer ", "abc"), "Bearer abc");
    assert_eq!(join2("", ""), "");
}

#[test]
fn render_decimal_writes_digits_without_leading_zeros() {
    assert_eq!(render_decimal(0), "0");
    assert_eq!(render_decimal(7), "7");
    assert_eq!(render_decimal(10), "10");
    assert_eq!(render_decimal(1234567890), "1234567890");
    assert_eq!(render_decimal(u64::MAX), "18446744073709551615");
}

#[test]
fn render_signed_puts_a_minus_before_negative_numbers() {
    assert_eq!(render_signed(0), "0");
    assert_eq!(render_signed(-1), "-1");
    assert_eq!(render_signed(255), "255");
    assert_eq!(render_signed(-2147483648), "-2147483648");
    assert_eq!(render_signed(i64::MIN), "-9223372036854775808");
    assert_eq!(render_signed(i64::MAX), "9223372036854775807");
}

#[test]
fn render_signed_agrees_with_the_standard_rendering() {
    let samples: [i64; 8] = [0, 1, -1, 9, 10, -10, 99999, -100000];
    for n in samples {
        assert_eq!(render_signed(n), n.to_string());
    }
}
