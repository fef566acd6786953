//! Random identifiers (UUID v4) held as 128-bit integers, and their hyphenated text.

use vstd::prelude::*;
use crate::hash::{be_bytes_u128, hex_lower};

verus! {

/// A version-4, RFC 4122 variant UUID: version nibble 4 and variant bits `10`.
pub open spec fn is_v4_uuid(u: u128) -> bool {
    &&& (u as int / 0x10000000000000000000) % 16 == 4
    &&& (u as int / 0x4000000000000000) % 4 == 2
}

/// The hyphenated lower-case form `xxxxxxxx-xxxx-xxxx-xxxx-xxxxxxxxxxxx` of a UUID.
pub open spec fn uuid_text(u: u128) -> Seq<char> {
    let d = hex_lower(be_bytes_u128(u));
    d.subrange(0, 8) + seq!['-'] + d.subrange(8, 12) + seq!['-'] + d.subrange(12, 16) + seq!['-']
        + d.subrange(16, 20) + seq!['-'] + d.subrange(20, 32)
}

/// A fresh random identifier (`uuid::Uuid::new_v4`, as its big-endian 128-bit value).
/// The source masks the random bits so that the version is 4 and the variant RFC 4122;
/// the other bits come from the random source and are not stated. The call fails (panics)
/// only when the operating system's random source fails; no argument can cause it.
#[verifier::external_body]
pub fn new_uuid() -> (r: u128)
    ensures
        is_v4_uuid(r),
{
    uuid::Uuid::new_v4().as_u128()
}

/// Hyphenated lower-case text of a UUID (`Uuid::from_u128(u).to_string()`).
#[verifier::external_body]
pub fn uuid_string(u: u128) -> (r: String)
    ensures
        r@ == uuid_text(u),
{
    uuid::Uuid::from_u128(u).to_string()
}

} // verus!
