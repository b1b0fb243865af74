use streaky_notification_proxy::text::{push_decimal, push_decimal_digits, str_eq};

fn decimal_of(i: i64) -> String {
    let mut out = String::new();
    push_decimal(&mut out, i);
    out
}

#[test]
fn decimal_of_small_numbers() {
    assert_eq!(decimal_of(0), "0");
    assert_eq!(decimal_of(5), "5");
    assert_eq!(decimal_of(9), "9");
    assert_eq!(decimal_of(10), "10");
    assert_eq!(decimal_of(365), "365");
    assert_eq!(decimal_of(1000), "1000");
    assert_eq!(decimal_of(1234567890), "1234567890");
}

#[test]
fn decimal_of_negative_numbers() {
    assert_eq!(decimal_of(-1), "-1");
    assert_eq!(decimal_of(-12), "-12");
    assert_eq!(decimal_of(-2147483648), "-2147483648");
}

#[test]
fn decimal_of_the_extremes() {
    assert_eq!(decimal_of(i64::MAX), "9223372036854775807");
    assert_eq!(decimal_of(i64::MIN), "-9223372036854775808");
}

#[test]
fn decimal_agrees_with_the_standard_rendering() {
    let mut n: i64 = -5000;
    while n <= 5000 {
        assert_eq!(decimal_of(n), n.to_string());
        n += 7;
    }
}

#[test]
fn decimal_is_appended_to_what_is_there() {
    let mut out = String::from("streak: ");
    push_decimal(&mut out, -42);
    assert_eq!(out, "streak: -42");
    push_decimal_digits(&mut out, 7);
    assert_eq!(out, "streak: -427");
    push_decimal_digits(&mut out, u64::MAX);
    assert_eq!(out, "streak: -42718446744073709551615");
}

#[test]
fn equal_texts_are_equal() {
    assert!(str_eq("", ""));
    assert!(str_eq("discord", "discord"));
    assert!(str_eq("grüße 🔥", "grüße 🔥"));
}

#[test]
fn different_texts_are_different() {
    assert!(!str_eq("discord", "telegram"));
    assert!(!str_eq("discord", "Discord"));
    assert!(!str_eq("discord", "discord "));
    assert!(!str_eq("", "a"));
    assert!(!str_eq("abc", "abd"));
    assert!(!str_eq("é", "e"));
}
