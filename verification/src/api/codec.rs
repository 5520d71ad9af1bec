use vstd::prelude::*;
use base64::engine::general_purpose::{STANDARD, URL_SAFE_NO_PAD};
use base64::Engine;
use sha2::{Digest, Sha256};

verus! {

/// The base64 text of `data` as `base64` encodes it: with the URL-safe
/// alphabet and no padding when `url_safe_no_pad` holds, else with the
/// standard alphabet and `=` padding.
pub uninterp spec fn base64_encoding(url_safe_no_pad: bool, data: Seq<u8>) -> Seq<char>;

/// What `base64`'s standard engine decodes from `text`: the bytes, or the
/// text of the decoding error.
pub uninterp spec fn base64_decoding(text: Seq<char>) -> Result<Seq<u8>, Seq<char>>;

/// The SHA-256 digest of `data` as `sha2` computes it.
pub uninterp spec fn sha256_digest(data: Seq<u8>) -> Seq<u8>;

/// A character of the URL-safe base64 alphabet.
pub open spec fn is_url_safe_base64_char(c: char) -> bool {
    ('A' <= c && c <= 'Z') || ('a' <= c && c <= 'z') || ('0' <= c && c <= '9') || c == '-' || c
        == '_'
}

/// The number of characters in the unpadded base64 text of `n` bytes: four
/// for each whole group of three bytes, and one more than the bytes left
/// over for a last, partial group.
pub open spec fn unpadded_base64_len(n: nat) -> nat {
    4 * (n / 3) + if n % 3 == 0 {
        0
    } else {
        n % 3 + 1
    }
}

/// `URL_SAFE_NO_PAD.encode` of `base64`. The result is named
/// `base64_encoding(true, ..)`; the contract also claims its length (what
/// `encoded_len` computes without padding) and that it uses only the
/// URL-safe alphabet (`A`–`Z`, `a`–`z`, `0`–`9`, `-`, `_`), as that
/// engine's alphabet and its lack of padding fix.
#[verifier::external_body]
pub(crate) fn encode_base64_url_safe(data: &[u8]) -> (r: String)
    requires
        data@.len() <= usize::MAX / 2,
    ensures
        r@ == base64_encoding(true, data@),
        r@.len() == unpadded_base64_len(data@.len()),
        forall|i: int| 0 <= i < r@.len() ==> is_url_safe_base64_char(#[trigger] r@[i]),
{
    URL_SAFE_NO_PAD.encode(data)
}

/// `STANDARD.encode` of `base64`; the result is named `base64_encoding(false, ..)`.
#[verifier::external_body]
pub(crate) fn encode_base64_standard(data: &[u8]) -> (r: String)
    requires
        data@.len() <= usize::MAX / 2,
    ensures
        r@ == base64_encoding(false, data@),
{
    STANDARD.encode(data)
}

/// `STANDARD.decode` of `base64` on the bytes of `text`; the result (the
/// bytes, or the display text of the `DecodeError`) is named
/// `base64_decoding`.
#[verifier::external_body]
pub(crate) fn decode_base64_standard(text: &str) -> (r: Result<Vec<u8>, String>)
    ensures
        match base64_decoding(text@) {
            Ok(bytes) => r matches Ok(v) && v@ == bytes,
            Err(message) => r matches Err(m) && m@ == message,
        },
{
    match STANDARD.decode(text) {
        Ok(v) => Ok(v),
        Err(e) => Err(e.to_string()),
    }
}

/// `Sha256::digest` of `sha2`. The result is named `sha256_digest`; the
/// contract also claims its length, 32 bytes, which SHA-256 fixes.
#[verifier::external_body]
pub(crate) fn sha256(data: &[u8]) -> (r: Vec<u8>)
    ensures
        r@ == sha256_digest(data@),
        r@.len() == 32,
{
    Sha256::digest(data).to_vec()
}

/// `getrandom::getrandom` on a 32-byte buffer: `Some` of the bytes that the
/// operating system's random source filled in, `None` when that source
/// reported an error. Nothing is claimed of the bytes but their number, nor
/// of when the source fails.
#[verifier::external_body]
pub(crate) fn random_seed() -> (r: Option<Vec<u8>>)
    ensures
        r matches Some(v) ==> v@.len() == 32,
{
    let mut buf = [0u8; 32];
    match getrandom::getrandom(&mut buf) {
        Ok(()) => Some(buf.to_vec()),
        Err(_) => None,
    }
}

} // verus!
