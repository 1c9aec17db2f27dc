use fltk_form::text::{bool_text, same_text, signed_text, unsigned_text};

#[test]
fn unsigned_text_writes_decimal_digits() {
    assert_eq!(unsigned_text(0), "0");
    assert_eq!(unsigned_text(7), "7");
    assert_eq!(unsigned_text(10), "10");
    assert_eq!(unsigned_text(1234), "1234");
    assert_eq!(unsigned_text(u64::MAX), u64::MAX.to_string());
}

#[test]
fn signed_text_writes_sign_and_digits() {
    assert_eq!(signed_text(0), "0");
    assert_eq!(signed_text(-5), "-5");
    assert_eq!(signed_text(42), "42");
    assert_eq!(signed_text(-100), "-100");
    assert_eq!(signed_text(i64::MIN), format!("{:?}", i64::MIN));
    assert_eq!(signed_text(i64::MAX), format!("{:?}", i64::MAX));
}

#[test]
fn bool_text_is_true_or_false() {
    assert_eq!(bool_text(true), "true");
    assert_eq!(bool_text(false), "false");
}

#[test]
fn same_text_compares_contents() {
    assert!(same_text(&"abc".to_string(), &"abc".to_string()));
    assert!(!same_text(&"abc".to_string(), &"abd".to_string()));
    assert!(!same_text(&"".to_string(), &" ".to_string()));
}
