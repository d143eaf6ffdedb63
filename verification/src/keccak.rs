//! The cryptographic hash behind the proof-of-work score.

use vstd::prelude::*;

verus! {

/// The keccak-256 digest of a byte string. The outside hash function is a
/// pure function of its input; its value is not restated here.
pub uninterp spec fn keccak256_of(input: Seq<u8>) -> Seq<u8>;

/// Relies on sha3::Keccak256 (through the digest crate's one-shot entry):
/// keccak-256 maps the input bytes alone to a 32-byte digest.
#[verifier::external_body]
pub(crate) fn keccak256(input: &[u8; 24]) -> (r: [u8; 32])
    ensures
        r@ == keccak256_of(input@),
{
    let out = <sha3::Keccak256 as sha3::Digest>::digest(input);
    let mut r = [0u8; 32];
    r.copy_from_slice(&out);
    r
}

} // verus!
