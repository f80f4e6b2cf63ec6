//! The outside computations the library relies on: base64, HMAC-SHA1 and
//! lower-casing. Each is named by a spec function of its inputs alone.

use base64::engine::general_purpose::STANDARD as BASE64;
use base64::Engine;
use hmac::{Hmac, Mac};
use sha1::Sha1;
use vstd::prelude::*;

verus! {

/// The standard, padded base64 encoding of `bytes`.
pub uninterp spec fn base64_encoding_of(bytes: Seq<u8>) -> Seq<char>;

/// The bytes that the standard, padded base64 text `text` stands for, or
/// `None` where `text` is not such a text.
pub uninterp spec fn base64_decoding_of(text: Seq<char>) -> Option<Seq<u8>>;

/// The HMAC-SHA1 digest of the UTF-8 bytes of `message` under the UTF-8 bytes
/// of `key`.
pub uninterp spec fn hmac_sha1_of(key: Seq<char>, message: Seq<char>) -> Seq<u8>;

/// The Unicode lower-case form of `s`.
pub uninterp spec fn lowercase_of(s: Seq<char>) -> Seq<char>;

/// A character of the standard base64 alphabet, padding included.
pub open spec fn is_base64_symbol(c: char) -> bool {
    ('A' <= c && c <= 'Z') || ('a' <= c && c <= 'z') || ('0' <= c && c <= '9') || c == '+'
        || c == '/' || c == '='
}

/// Relies on base64's `Engine::encode` with the `STANDARD` engine: the padded
/// encoding, which depends on the bytes alone.
#[verifier::external_body]
pub(crate) fn base64_encode(bytes: &[u8]) -> (r: String)
    ensures
        r@ == base64_encoding_of(bytes@),
{
    BASE64.encode(bytes)
}

/// Relies on base64's `Engine::decode` with the `STANDARD` engine: it decodes
/// padded standard text, depends on the text alone, and rejects every byte
/// outside the alphabet (`InvalidByte`).
#[verifier::external_body]
pub(crate) fn base64_decode(text: &str) -> (r: Option<Vec<u8>>)
    ensures
        match r {
            Some(bytes) => base64_decoding_of(text@) == Some(bytes@),
            None => base64_decoding_of(text@) is None,
        },
        (exists|i: int| 0 <= i < text@.len() && !is_base64_symbol(#[trigger] text@[i])) ==> r is None,
{
    BASE64.decode(text).ok()
}

/// Relies on hmac's `Hmac<Sha1>`: `new_from_slice` accepts a key of any length
/// (it never returns `Err`), then `update` and `finalize` give the digest.
#[verifier::external_body]
pub(crate) fn hmac_sha1(key: &str, message: &str) -> (r: Vec<u8>)
    ensures
        r@ == hmac_sha1_of(key@, message@),
{
    let mut mac = Hmac::<Sha1>::new_from_slice(key.as_bytes()).expect("HMAC takes a key of any length");
    mac.update(message.as_bytes());
    mac.finalize().into_bytes().to_vec()
}

/// Relies on std's `str::to_lowercase`: the result depends on the characters
/// alone.
#[verifier::external_body]
pub(crate) fn to_lowercase(s: &str) -> (r: String)
    ensures
        r@ == lowercase_of(s@),
{
    s.to_lowercase()
}

} // verus!
