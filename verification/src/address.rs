//! The content addressor: a pure map from a content value to its key.
//!
//! A key is the MD5 digest of the payload bytes, written as lower-case
//! hexadecimal, base64-encoded, and truncated to [`HASHLEN`] characters.
//! Truncation deliberately narrows the digest space: two distinct payloads
//! may share a key, and resolving that is left to the store's overwrite
//! semantics.

use vstd::prelude::*;

use crate::content::{ContentView, HASHLEN};

verus! {

/// The MD5 digest of a byte sequence, named but not written out here:
/// the store relies on the `md5` crate to compute it.
pub uninterp spec fn md5_of(bytes: Seq<u8>) -> Seq<u8>;

/// The standard base64 encoding of a byte sequence, named but not written
/// out here: the store relies on the `base64` crate to compute it.
pub uninterp spec fn base64_of(bytes: Seq<u8>) -> Seq<char>;

/// The ASCII byte of the hexadecimal digit with value `v`, lower case.
pub open spec fn hex_digit_byte(v: u8) -> u8 {
    if v < 10 {
        (48 + v) as u8
    } else {
        (87 + v) as u8
    }
}

/// The lower-case hexadecimal encoding of a byte sequence: two ASCII
/// digit bytes for each input byte, most significant digit first.
pub open spec fn hex_bytes_of(s: Seq<u8>) -> Seq<u8> {
    Seq::new(
        2 * s.len(),
        |i: int|
            if i % 2 == 0 {
                hex_digit_byte((s[i / 2] / 16) as u8)
            } else {
                hex_digit_byte((s[i / 2] % 16) as u8)
            },
    )
}

/// The content key of a payload given as raw bytes: the base64 encoding
/// of the hexadecimal form of the MD5 digest, cut to [`HASHLEN`] characters.
pub open spec fn spec_key(bytes: Seq<u8>) -> Seq<char> {
    base64_of(hex_bytes_of(md5_of(bytes))).take(HASHLEN as int)
}

/// The content key of a content value: the key of its payload's UTF-8 bytes.
pub open spec fn key_of(c: ContentView) -> Seq<char> {
    match c {
        ContentView::PlainText(t) => spec_key(vstd::utf8::encode_utf8(t)),
    }
}

/// Relies on `md5::compute`: the 128-bit MD5 digest of the input, sixteen
/// bytes, a function of the input bytes alone.
#[verifier::external_body]
fn md5_digest(bytes: &[u8]) -> (r: Vec<u8>)
    ensures
        r@ == md5_of(bytes@),
        r@.len() == 16,
{
    md5::compute(bytes).0.to_vec()
}

/// Relies on `base64::encode`: the standard base64 alphabet with `=`
/// padding, four output characters for every started group of three input
/// bytes, a function of the input bytes alone. It panics when the output
/// size cannot be computed in `usize`, so such inputs are excluded.
#[verifier::external_body]
fn base64_encode(bytes: &[u8]) -> (r: String)
    requires
        ((bytes@.len() + 2) / 3) * 4 <= usize::MAX as nat,
    ensures
        r@ == base64_of(bytes@),
        r@.len() == ((bytes@.len() + 2) / 3) * 4,
{
    base64::encode(bytes)
}

/// The ASCII byte of the hexadecimal digit with value `v`, lower case.
fn hex_digit(v: u8) -> (r: u8)
    requires
        v < 16,
    ensures
        r == hex_digit_byte(v),
{
    if v < 10 {
        48 + v
    } else {
        87 + v
    }
}

/// Encode a byte sequence as lower-case hexadecimal ASCII bytes.
fn hex_encode(bytes: &[u8]) -> (r: Vec<u8>)
    ensures
        r@ == hex_bytes_of(bytes@),
{
    let mut r: Vec<u8> = Vec::new();
    let mut i: usize = 0;
    while i < bytes.len()
        invariant
            i <= bytes@.len(),
            r@.len() == 2 * i,
            forall|j: int| 0 <= j < r@.len() ==> r@[j] == hex_bytes_of(bytes@)[j],
        decreases bytes@.len() - i,
    {
        let b = bytes[i];
        r.push(hex_digit(b / 16));
        r.push(hex_digit(b % 16));
        i += 1;
    }
    proof {
        assert(r@ =~= hex_bytes_of(bytes@));
    }
    r
}

/// Compute the content key of a payload given as raw bytes.
///
/// Deterministic (the result is `spec_key` of the input and of nothing
/// else) and always exactly [`HASHLEN`] characters long; it never fails,
/// even on an empty payload.
pub fn content_key(payload: &[u8]) -> (r: String)
    ensures
        r@ == spec_key(payload@),
        r@.len() == HASHLEN as nat,
{
    let digest = md5_digest(payload);
    let hex = hex_encode(digest.as_slice());
    let encoded = base64_encode(hex.as_slice());
    let key = encoded.as_str().substring_char(0, HASHLEN).to_owned();
    key
}

} // verus!
