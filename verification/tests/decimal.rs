use gmsl_picam_rs::decimal::{decimal_ascii, push_decimal};

#[test]
fn decimal_ascii_writes_plain_digits() {
    assert_eq!(decimal_ascii(0), b"0".to_vec());
    assert_eq!(decimal_ascii(9), b"9".to_vec());
    assert_eq!(decimal_ascii(10), b"10".to_vec());
    assert_eq!(decimal_ascii(1_234_567), b"1234567".to_vec());
    assert_eq!(decimal_ascii(usize::MAX), usize::MAX.to_string().into_bytes());
}

#[test]
fn push_decimal_appends_to_text() {
    let mut text = String::from("n=");
    push_decimal(&mut text, 305);
    assert_eq!(text, "n=305");
}
