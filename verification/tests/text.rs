use gpu_temp::text::{
    decimal_width, digit_to_char, push_decimal, push_left_aligned, push_right_aligned,
    push_signed_decimal, push_spaces,
};

fn numeral(n: u64) -> String {
    let mut out = String::new();
    push_decimal(&mut out, n);
    out
}

#[test]
fn numeral_of_zero_is_one_digit() {
    assert_eq!(numeral(0), "0");
    assert_eq!(decimal_width(0), 1);
}

#[test]
fn numeral_of_small_numbers() {
    assert_eq!(numeral(7), "7");
    assert_eq!(numeral(10), "10");
    assert_eq!(numeral(16), "16");
    assert_eq!(numeral(1000), "1000");
    assert_eq!(numeral(123456789), "123456789");
}

#[test]
fn numeral_of_largest_number() {
    assert_eq!(numeral(u64::MAX), "18446744073709551615");
    assert_eq!(decimal_width(u64::MAX), 20);
}

#[test]
fn numeral_agrees_with_std_formatting() {
    let mut n: u64 = 1;
    for _ in 0..64 {
        assert_eq!(numeral(n), format!("{}", n));
        assert_eq!(numeral(n - 1), format!("{}", n - 1));
        assert_eq!(decimal_width(n), format!("{}", n).len());
        n = n.wrapping_mul(2);
    }
}

#[test]
fn numeral_is_appended_to_what_is_there() {
    let mut out = String::from("x=");
    push_decimal(&mut out, 42);
    assert_eq!(out, "x=42");
}

#[test]
fn digits_map_to_their_characters() {
    let expected = ['0', '1', '2', '3', '4', '5', '6', '7', '8', '9'];
    for d in 0u8..10 {
        assert_eq!(digit_to_char(d), expected[d as usize]);
    }
}

#[test]
fn signed_numerals() {
    let mut out = String::new();
    push_signed_decimal(&mut out, -15);
    assert_eq!(out, "-15");
    let mut out = String::new();
    push_signed_decimal(&mut out, 0);
    assert_eq!(out, "0");
    let mut out = String::new();
    push_signed_decimal(&mut out, i32::MIN);
    assert_eq!(out, "-2147483648");
    let mut out = String::new();
    push_signed_decimal(&mut out, i32::MAX);
    assert_eq!(out, "2147483647");
}

#[test]
fn spaces_are_counted() {
    let mut out = String::from("a");
    push_spaces(&mut out, 0);
    assert_eq!(out, "a");
    push_spaces(&mut out, 3);
    assert_eq!(out, "a   ");
}

#[test]
fn right_alignment_pads_on_the_left() {
    let mut out = String::new();
    push_right_aligned(&mut out, 7, 3);
    assert_eq!(out, "  7");
    assert_eq!(out, format!("{:>3}", 7));
}

#[test]
fn left_alignment_pads_on_the_right() {
    let mut out = String::new();
    push_left_aligned(&mut out, 7, 3);
    assert_eq!(out, "7  ");
    assert_eq!(out, format!("{:<3}", 7));
}

#[test]
fn a_wide_numeral_is_not_cut() {
    let mut out = String::new();
    push_right_aligned(&mut out, 1234, 3);
    assert_eq!(out, "1234");
    let mut out = String::new();
    push_left_aligned(&mut out, 1234, 3);
    assert_eq!(out, "1234");
    let mut out = String::new();
    push_right_aligned(&mut out, 123, 3);
    assert_eq!(out, "123");
    let mut out = String::new();
    push_right_aligned(&mut out, 5, 0);
    assert_eq!(out, "5");
}
