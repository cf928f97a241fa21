use vstd::prelude::*;

use sha1::Digest;

verus! {

/// The SHA-1 digest of a text: a function of the characters alone.
pub uninterp spec fn sha1_of(text: Seq<char>) -> Seq<u8>;

/// The lowercase hex digit for a nibble.
pub open spec fn hex_digit(n: u8) -> char
    recommends
        n < 16,
{
    if n < 10 {
        (((n + 48) as u8) as char)
    } else {
        (((n + 87) as u8) as char)
    }
}

/// The lowercase hex rendering of the bytes from position `i` on: two
/// digits per byte, high nibble first.
pub open spec fn hex_of_from(bytes: Seq<u8>, i: int) -> Seq<char>
    decreases bytes.len() - i,
{
    if i < 0 || i >= bytes.len() {
        Seq::empty()
    } else {
        seq![hex_digit(bytes[i] / 16), hex_digit(bytes[i] % 16)] + hex_of_from(bytes, i + 1)
    }
}

/// The lowercase hex rendering of a byte sequence.
pub open spec fn hex_of(bytes: Seq<u8>) -> Seq<char> {
    hex_of_from(bytes, 0)
}

/// Relies on `sha1::Sha1` (the SHA-1 digest): the 20-byte result depends on
/// the input bytes alone.
#[verifier::external_body]
pub(crate) fn sha1_digest(text: &str) -> (r: Vec<u8>)
    ensures
        r@ == sha1_of(text@),
        r@.len() == 20,
{
    let mut hasher = sha1::Sha1::new();
    hasher.update(text.as_bytes());
    hasher.finalize().to_vec()
}

/// Relies on `hex::encode`: lowercase, two digits per byte, high nibble
/// first.
#[verifier::external_body]
pub(crate) fn hex_encode(bytes: &Vec<u8>) -> (r: String)
    ensures
        r@ == hex_of(bytes@),
{
    hex::encode(bytes)
}

} // verus!
