//! Content hashes of downloaded media: SHA-256, written as lower-case hex.

use vstd::prelude::*;
use sha2::Digest;

verus! {

/// The hex digit for `n` in `0..16`, lower case.
pub open spec fn hex_digit(n: int) -> char {
    if n < 10 {
        (48 + n) as char
    } else {
        (87 + n) as char
    }
}

/// Lower-case hex of a byte sequence, two digits per byte, high nibble first.
pub open spec fn hex_lower(b: Seq<u8>) -> Seq<char>
    decreases b.len(),
{
    if b.len() == 0 {
        seq![]
    } else {
        hex_lower(b.drop_last()) + seq![hex_digit(b.last() as int / 16), hex_digit(b.last() as int % 16)]
    }
}

/// The sixteen bytes of `u`, most significant first.
pub open spec fn be_bytes_u128(u: u128) -> Seq<u8> {
    Seq::new(16, |k: int| ((u as int / vstd::arithmetic::power::pow(256, (15 - k) as nat)) % 256) as u8)
}

/// Hex text has two characters per byte.
pub proof fn lemma_hex_lower_len(b: Seq<u8>)
    ensures
        hex_lower(b).len() == 2 * b.len(),
    decreases b.len(),
{
    if b.len() > 0 {
        lemma_hex_lower_len(b.drop_last());
    }
}

/// SHA-256 digest of `data`.
pub uninterp spec fn sha256_digest(data: Seq<u8>) -> Seq<u8>;

/// SHA-256 of `data` (`sha2::Sha256::digest`). The digest is a function of the bytes alone,
/// 32 bytes long (the output type is a 32-byte array); its bytes are not stated here.
#[verifier::external_body]
fn sha256(data: &[u8]) -> (r: Vec<u8>)
    ensures
        r@ == sha256_digest(data@),
        r@.len() == 32,
{
    sha2::Sha256::digest(data).to_vec()
}

/// Lower-case hex of `data` (`hex::encode`): two digits per byte from `0123456789abcdef`.
#[verifier::external_body]
fn hex_encode(data: &[u8]) -> (r: String)
    ensures
        r@ == hex_lower(data@),
{
    hex::encode(data)
}

/// The content hash under which a media asset is stored: lower-case hex of its SHA-256,
/// always 64 characters.
pub fn content_hash(bytes: &[u8]) -> (r: String)
    ensures
        r@ == hex_lower(sha256_digest(bytes@)),
        r@.len() == 64,
{
    let digest = sha256(bytes);
    proof {
        lemma_hex_lower_len(digest@);
    }
    hex_encode(digest.as_slice())
}

} // verus!
