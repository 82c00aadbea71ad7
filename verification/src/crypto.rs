//! SHA-256, HMAC-SHA256 and hexadecimal encoding, as the Tuya Cloud
//! request signature uses them.

use vstd::prelude::*;
use hmac::Mac;
use crate::text::{ascii_upper, digit_char, to_uppercase};

verus! {

/// The SHA-256 digest of `data`, as `sha2::Sha256::digest` computes it.
pub uninterp spec fn sha256(data: Seq<u8>) -> Seq<u8>;

/// The HMAC-SHA256 tag of `msg` under `key`, as `hmac::Hmac<Sha256>`
/// computes it.
pub uninterp spec fn hmac_sha256(key: Seq<u8>, msg: Seq<u8>) -> Seq<u8>;

/// Lower-case hexadecimal digit for `d` (`0 <= d < 16`).
pub open spec fn hex_digit(d: int) -> char {
    if d < 10 { digit_char(d) } else { ((d - 10) + 97) as char }
}

/// Two lower-case hexadecimal digits per byte, high nibble first.
pub open spec fn lower_hex(bytes: Seq<u8>) -> Seq<char> {
    Seq::new(
        2 * bytes.len(),
        |i: int|
            if i % 2 == 0 {
                hex_digit((bytes[i / 2] / 16) as int)
            } else {
                hex_digit((bytes[i / 2] % 16) as int)
            },
    )
}

/// Upper-case hexadecimal of `bytes`.
pub open spec fn upper_hex(bytes: Seq<u8>) -> Seq<char> {
    ascii_upper(lower_hex(bytes))
}

/// `sha2::Sha256::digest`: claims the digest is the named function of the
/// bytes, 32 bytes long.
#[verifier::external_body]
fn sha256_digest(data: &[u8]) -> (r: Vec<u8>)
    ensures
        r@ == sha256(data@),
        r@.len() == 32,
{
    <sha2::Sha256 as sha2::Digest>::digest(data).to_vec()
}

/// `hmac::Hmac::<Sha256>::new_from_slice`, `update` and `finalize`: claims
/// the tag is the named function of key and message, 32 bytes long. HMAC
/// accepts keys of every length, so the key is never refused.
#[verifier::external_body]
fn hmac_sha256_tag(key: &[u8], msg: &[u8]) -> (r: Vec<u8>)
    ensures
        r@ == hmac_sha256(key@, msg@),
        r@.len() == 32,
{
    let mut mac = hmac::Hmac::<sha2::Sha256>::new_from_slice(key).expect("HMAC takes keys of any size");
    mac.update(msg);
    mac.finalize().into_bytes().to_vec()
}

/// `hex::encode`: two lower-case hexadecimal digits per byte.
#[verifier::external_body]
fn hex_encode(data: &[u8]) -> (r: String)
    ensures
        r@ == lower_hex(data@),
{
    hex::encode(data)
}

proof fn lemma_lower_hex_ascii(bytes: Seq<u8>)
    ensures
        vstd::utf8::is_ascii_chars(lower_hex(bytes)),
{
    let h = lower_hex(bytes);
    assert forall|i: int| 0 <= i < h.len() implies '\0' <= #[trigger] h[i] <= '\u{7f}' by {
        let d = if i % 2 == 0 { bytes[i / 2] / 16 } else { bytes[i / 2] % 16 };
        assert(0 <= d < 16);
        assert(h[i] == hex_digit(d as int));
    }
}

/// Lower-case hexadecimal SHA-256 digest of the UTF-8 bytes of `text`.
pub fn sha256_hex(text: &str) -> (r: String)
    ensures
        r@ == lower_hex(sha256(vstd::utf8::encode_utf8(text@))),
{
    let digest = sha256_digest(text.as_bytes());
    hex_encode(digest.as_slice())
}

/// Upper-case hexadecimal HMAC-SHA256 tag of the UTF-8 bytes of `msg`
/// under the UTF-8 bytes of `secret`: the Tuya Cloud `sign` header.
pub fn sign(secret: &str, msg: &str) -> (r: String)
    ensures
        r@ == upper_hex(hmac_sha256(vstd::utf8::encode_utf8(secret@), vstd::utf8::encode_utf8(msg@))),
{
    let tag = hmac_sha256_tag(secret.as_bytes(), msg.as_bytes());
    let lower = hex_encode(tag.as_slice());
    proof {
        lemma_lower_hex_ascii(tag@);
    }
    to_uppercase(lower.as_str())
}

} // verus!
