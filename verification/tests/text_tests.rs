use multi_hash_verified::text::{push_decimal, push_lower_hex};
use multi_hash_verified::CodecEntry;

fn decimal_of(n: u64) -> String {
    let mut s = String::new();
    push_decimal(&mut s, n);
    s
}

fn hex_of(n: u64) -> String {
    let mut s = String::new();
    push_lower_hex(&mut s, n);
    s
}

#[test]
fn decimal_digits() {
    assert_eq!(decimal_of(0), "0");
    assert_eq!(decimal_of(7), "7");
    assert_eq!(decimal_of(10), "10");
    assert_eq!(decimal_of(1234567890), "1234567890");
    assert_eq!(decimal_of(u64::MAX), "18446744073709551615");
}

#[test]
fn lower_hex_digits() {
    assert_eq!(hex_of(0), "0");
    assert_eq!(hex_of(0x12), "12");
    assert_eq!(hex_of(0xabcdef), "abcdef");
    assert_eq!(hex_of(u64::MAX), "ffffffffffffffff");
}

#[test]
fn digits_append_to_existing_text() {
    let mut s = String::from("n=");
    push_decimal(&mut s, 42);
    s.push_str(", x=");
    push_lower_hex(&mut s, 255);
    assert_eq!(s, "n=42, x=ff");
}

#[test]
fn codec_debug_text() {
    assert_eq!(CodecEntry::new(0x12, "sha2-256").debug_text(), "sha2-256 (0x12)");
    assert_eq!(CodecEntry::new(0x00, "identity").debug_text(), "identity (0x0)");
    assert_eq!(CodecEntry::new(0xb220, "blake2b-256").debug_text(), "blake2b-256 (0xb220)");
}
