//! The portable proof: a (digest, nonce) pair with a fixed 24-byte encoding.

use vstd::prelude::*;
use crate::error::DrillxError;
use crate::solver::equix_verifies;

verus! {

/// A proof-of-work solution which can be validated cheaply, without
/// re-running the search.
#[derive(Clone, Copy, Debug)]
pub struct Solution {
    /// The 16-byte solver digest.
    pub d: [u8; 16],
    /// The 8-byte nonce the digest was solved for.
    pub n: [u8; 8],
}

impl Solution {
    /// Builds a new solution from a digest and nonce, unvalidated.
    pub fn new(digest: [u8; 16], nonce: [u8; 8]) -> (r: Solution)
        ensures
            r.d == digest,
            r.n == nonce,
    {
        Solution { d: digest, n: nonce }
    }

    /// Returns true if the stored digest is a solution the Equi-X verifier
    /// accepts for the seed built from the challenge and the stored nonce.
    pub fn is_valid(&self, challenge: &[u8; 32]) -> (r: bool)
        ensures
            r == equix_verifies(crate::seed_bytes(challenge@, self.n@), self.d@),
    {
        crate::is_valid_digest(challenge, &self.n, &self.d)
    }

    /// Recomputes the canonical hash of this solution, exactly as the
    /// top-level hash does; the stored digest is left untouched.
    pub fn to_hash(&self) -> (r: crate::Hash)
        ensures
            r.d == self.d,
            r.h@ == crate::hashv_spec(self.d@, self.n@),
    {
        let d = self.d;
        crate::Hash { d: self.d, h: crate::hashv(&d, &self.n) }
    }

    /// Decodes a solution from its fixed 24-byte encoding: digest first,
    /// nonce after. Total: every 24-byte input decodes.
    pub fn from_bytes(bytes: [u8; 24]) -> (r: Self)
        ensures
            r.d@ == bytes@.subrange(0, 16),
            r.n@ == bytes@.subrange(16, 24),
    {
        let mut d = [0u8; 16];
        let mut n = [0u8; 8];
        let mut i: usize = 0;
        while i < 16
            invariant
                i <= 16,
                forall|j: int| 0 <= j < i ==> d@[j] == bytes@[j],
            decreases 16 - i,
        {
            d[i] = bytes[i];
            i = i + 1;
        }
        let mut k: usize = 0;
        while k < 8
            invariant
                k <= 8,
                forall|j: int| 0 <= j < 16 ==> d@[j] == bytes@[j],
                forall|j: int| 0 <= j < k ==> n@[j] == bytes@[16 + j],
            decreases 8 - k,
        {
            n[k] = bytes[16 + k];
            k = k + 1;
        }
        proof {
            assert(d@ =~= bytes@.subrange(0, 16));
            assert(n@ =~= bytes@.subrange(16, 24));
        }
        Solution { d, n }
    }

    /// Encodes the solution into its fixed 24-byte form: digest (16 bytes)
    /// followed by nonce (8 bytes), no padding, no length prefix.
    pub fn to_bytes(&self) -> (r: [u8; 24])
        ensures
            r@ == self.d@ + self.n@,
    {
        let mut bytes = [0u8; 24];
        let mut i: usize = 0;
        while i < 16
            invariant
                i <= 16,
                forall|j: int| 0 <= j < i ==> bytes@[j] == self.d@[j],
            decreases 16 - i,
        {
            bytes[i] = self.d[i];
            i = i + 1;
        }
        let mut k: usize = 0;
        while k < 8
            invariant
                k <= 8,
                forall|j: int| 0 <= j < 16 ==> bytes@[j] == self.d@[j],
                forall|j: int| 0 <= j < k ==> bytes@[16 + j] == self.n@[j],
            decreases 8 - k,
        {
            bytes[16 + k] = self.n[k];
            k = k + 1;
        }
        proof {
            assert(bytes@ =~= self.d@ + self.n@);
        }
        bytes
    }
}

/// Decoding an encoded solution gives back exactly the digest and nonce
/// that were encoded: the 24-byte wire form round-trips.
pub proof fn lemma_solution_round_trip(d: Seq<u8>, n: Seq<u8>)
    requires
        d.len() == 16,
        n.len() == 8,
    ensures
        (d + n).subrange(0, 16) == d,
        (d + n).subrange(16, 24) == n,
{
    assert((d + n).subrange(0, 16) =~= d);
    assert((d + n).subrange(16, 24) =~= n);
}

} // verus!
