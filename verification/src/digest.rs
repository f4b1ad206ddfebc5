//! SHA-256 digests, as lower-case hexadecimal text.

use sha2::Digest;
use vstd::prelude::*;

verus! {

/// The SHA-256 digest of `data`, written as hexadecimal text.
pub uninterp spec fn sha256_hex_of(data: Seq<u8>) -> Seq<char>;

/// Calls `sha2::Sha256` (`new`, `update`, `finalize`) and formats the digest
/// with `{:x}`. Trusted: the result is a function of `data` alone, and it is
/// 64 characters long, two for each of the digest's 32 bytes.
#[verifier::external_body]
pub(crate) fn sha256_hex(data: &[u8]) -> (r: String)
    ensures
        r@ == sha256_hex_of(data@),
        r@.len() == 64,
{
    let mut hasher = sha2::Sha256::new();
    hasher.update(data);
    format!("{:x}", hasher.finalize())
}

} // verus!
