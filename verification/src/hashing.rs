//! The cryptographic hash primitive behind every fingerprint, supplied by a
//! platform crypto library and named here so that contracts can speak of it.

use vstd::prelude::*;

verus! {

/// The lowercase hex encoding of the SHA-256 digest of `data`: 64 ASCII
/// bytes, a function of `data` alone.
pub uninterp spec fn sha256_hex(data: Seq<u8>) -> Seq<u8>;

/// Whether `b` is an ASCII lowercase hexadecimal digit.
pub open spec fn is_hex_digit_byte(b: u8) -> bool {
    (48 <= b && b <= 57) || (97 <= b && b <= 102)
}

/// Relies on `crypto_hash::hex_digest` with `Algorithm::SHA256`: it returns
/// the hex encoding (`hex::encode`, lowercase, two digits per byte) of the
/// 32-byte SHA-256 digest of `data`, and depends on `data` alone.
#[verifier::external_body]
pub(crate) fn sha256_hex_digest(data: &[u8]) -> (r: Vec<u8>)
    ensures
        r@ == sha256_hex(data@),
        r@.len() == 64,
        forall|i: int| 0 <= i < r@.len() ==> is_hex_digit_byte(#[trigger] r@[i]),
{
    crypto_hash::hex_digest(crypto_hash::Algorithm::SHA256, data).into_bytes()
}

} // verus!
