use hyperlight_nanvix::text::{followed_by, decimal, same_text, starts_with};

#[test]
fn decimal_renders_single_digits() {
    assert_eq!(decimal(0), "0");
    assert_eq!(decimal(7), "7");
    assert_eq!(decimal(9), "9");
}

#[test]
fn decimal_renders_several_digits() {
    assert_eq!(decimal(10), "10");
    assert_eq!(decimal(1234567890), "1234567890");
    assert_eq!(decimal(1700000000123456789), "1700000000123456789");
}

#[test]
fn decimal_renders_the_largest_value() {
    assert_eq!(decimal(u128::MAX), "340282366920938463463374607431768211455");
    assert_eq!(decimal(u128::MAX), u128::MAX.to_string());
}

#[test]
fn same_text_compares_characters() {
    assert!(same_text("py", "py"));
    assert!(same_text("", ""));
    assert!(!same_text("py", "pY"));
    assert!(!same_text("py", "pyc"));
}

#[test]
fn starts_with_tests_the_prefix() {
    assert!(starts_with("hyperlight-single-process-1.2.3", "hyperlight-single-process-"));
    assert!(starts_with("abc", ""));
    assert!(starts_with("abc", "abc"));
    assert!(!starts_with("ab", "abc"));
    assert!(!starts_with("hyperlight-multi-process-1.2.3", "hyperlight-single-process-"));
    assert!(starts_with("\u{e9}t\u{e9}", "\u{e9}t"));
}

#[test]
fn followed_by_appends() {
    assert_eq!(followed_by("/tmp/x", "/toolchain"), "/tmp/x/toolchain");
    assert_eq!(followed_by("", "a"), "a");
    assert_eq!(followed_by("a", ""), "a");
}
