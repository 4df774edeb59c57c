//! The checksum that guards a frame's payload.

use vstd::prelude::*;

verus! {

/// The digest of `data` under SHA-256 applied twice: 32 bytes.
pub uninterp spec fn sha256d(data: Seq<u8>) -> Seq<u8>;

/// Calls `sha256d::Hash::hash` of the `bitcoin` crate's `hashes` and hands out
/// the digest's 32 bytes in the order in which the hash function wrote them.
/// The contract gives that digest its name and says nothing more of it.
#[verifier::external_body]
fn double_sha256(data: &[u8]) -> (digest: [u8; 32])
    ensures
        digest@ == sha256d(data@),
{
    let digest = <bitcoin::hashes::sha256d::Hash as bitcoin::hashes::Hash>::hash(data);
    bitcoin::hashes::Hash::to_byte_array(digest)
}

/// The first four bytes of the payload's double SHA-256 digest.
pub open spec fn checksum(payload: Seq<u8>) -> Seq<u8> {
    Seq::new(4, |i: int| sha256d(payload)[i])
}

/// Computes the checksum of `payload`.
pub fn checksum_of(payload: &[u8]) -> (sum: [u8; 4])
    ensures
        sum@ == checksum(payload@),
{
    let digest = double_sha256(payload);
    let sum = [digest[0], digest[1], digest[2], digest[3]];
    sum
}

} // verus!
