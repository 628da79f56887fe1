use musicbot::text::{chars_of, push_decimal, push_spaces, push_str, push_two_digits, str_eq, str_starts_with};

#[test]
fn chars_in_order() {
    assert_eq!(chars_of("añb"), vec!['a', 'ñ', 'b']);
    assert_eq!(chars_of(""), Vec::<char>::new());
}

#[test]
fn decimal_digits() {
    let mut s = String::from("x=");
    push_decimal(&mut s, 0);
    push_str(&mut s, ",");
    push_decimal(&mut s, 1234567890);
    push_str(&mut s, ",");
    push_decimal(&mut s, u64::MAX);
    assert_eq!(s, format!("x=0,1234567890,{}", u64::MAX));
}

#[test]
fn two_digit_numbers_and_spaces() {
    let mut s = String::new();
    push_two_digits(&mut s, 7);
    push_spaces(&mut s, 3);
    push_two_digits(&mut s, 42);
    push_two_digits(&mut s, 123);
    assert_eq!(s, format!("{:02}   {:02}{:02}", 7, 42, 123));
}

#[test]
fn string_comparisons() {
    assert!(str_eq("next", "next"));
    assert!(!str_eq("next", "nexT"));
    assert!(!str_eq("next", "nex"));
    assert!(str_starts_with("http://a", "http"));
    assert!(str_starts_with("abc", ""));
    assert!(!str_starts_with("ab", "abc"));
}
