use blog_server::text::{contains_char, push_bool, push_i64, push_u64, to_hex_lower};

fn u64_text(n: u64) -> String {
    let mut s = String::new();
    push_u64(&mut s, n);
    s
}

fn i64_text(n: i64) -> String {
    let mut s = String::new();
    push_i64(&mut s, n);
    s
}

#[test]
fn decimal_u64() {
    assert_eq!(u64_text(0), "0");
    assert_eq!(u64_text(7), "7");
    assert_eq!(u64_text(10), "10");
    assert_eq!(u64_text(1234567890), "1234567890");
    assert_eq!(u64_text(u64::MAX), u64::MAX.to_string());
}

#[test]
fn decimal_i64() {
    assert_eq!(i64_text(0), "0");
    assert_eq!(i64_text(-1), "-1");
    assert_eq!(i64_text(-20), "-20");
    assert_eq!(i64_text(i64::MIN), i64::MIN.to_string());
    assert_eq!(i64_text(i64::MAX), i64::MAX.to_string());
}

#[test]
fn decimal_appends() {
    let mut s = String::from("x=");
    push_u64(&mut s, 42);
    push_bool(&mut s, true);
    push_bool(&mut s, false);
    assert_eq!(s, "x=42truefalse");
}

#[test]
fn hex_lower_bytes() {
    assert_eq!(to_hex_lower(&[]), "");
    assert_eq!(to_hex_lower(&[0x00, 0x0f, 0xa0, 0xff]), "000fa0ff");
    assert_eq!(to_hex_lower(&[0xbe, 0xef]), "beef");
}

#[test]
fn char_containment() {
    assert!(contains_char("a@b", '@'));
    assert!(!contains_char("ab", '@'));
    assert!(!contains_char("", '@'));
    assert!(contains_char("中文@", '@'));
}
