use hmac::Mac;
use lights::crypto::{sha256_hex, sign};
use lights::text::{ascii_lowercase, decimal_i64, push_decimal, str_eq};

#[test]
fn decimal_of_small_and_extreme_values() {
    assert_eq!(decimal_i64(0), "0");
    assert_eq!(decimal_i64(7), "7");
    assert_eq!(decimal_i64(-42), "-42");
    assert_eq!(decimal_i64(1700000000123), "1700000000123");
    assert_eq!(decimal_i64(i64::MAX), i64::MAX.to_string());
    assert_eq!(decimal_i64(i64::MIN), i64::MIN.to_string());
}

#[test]
fn push_decimal_appends() {
    let mut s = String::from("h=");
    push_decimal(&mut s, 240);
    assert_eq!(s, "h=240");
}

#[test]
fn str_eq_compares_characters() {
    assert!(str_eq("RED", "RED"));
    assert!(!str_eq("RED", "REDS"));
    assert!(!str_eq("RED", "RAD"));
    assert!(str_eq("", ""));
    assert!(str_eq("ĳ", "ĳ"));
}

#[test]
fn ascii_lowercase_leaves_other_characters() {
    assert_eq!(ascii_lowercase("DeepSkyBlue"), "deepskyblue");
    assert_eq!(ascii_lowercase("ÀB-1"), "Àb-1");
}

#[test]
fn sha256_hex_known_digests() {
    assert_eq!(sha256_hex(""), "e3b0c44298fc1c149afbf4c8996fb92427ae41e4649b934ca495991b7852b855");
    assert_eq!(sha256_hex("abc"), "ba7816bf8f01cfea414140de5dae2223b00361a396177a9cb410ff61f20015ad");
}

#[test]
fn sign_is_upper_hex_hmac() {
    assert_eq!(
        sign("key", "The quick brown fox jumps over the lazy dog"),
        "F7BC83F430538424B13298E6AA6FB143EF4D59A14946175997479DBC2D1A3CD8"
    );
    let mut mac = hmac::Hmac::<sha2::Sha256>::new_from_slice(b"").unwrap();
    mac.update("ünïcode".as_bytes());
    let expected = hex::encode(mac.finalize().into_bytes()).to_uppercase();
    assert_eq!(sign("", "ünïcode"), expected);
}
