//! Proof-of-work hash construction over the Equi-X puzzle solver.
//!
//! Given a 32-byte challenge and an 8-byte nonce, the library builds a
//! 40-byte seed, asks the Equi-X solver for a candidate digest, re-hashes
//! the digest in a canonical (malleability-resistant) form together with
//! the nonce, and scores the result by its leading zero bits.

use vstd::prelude::*;

mod canonical;
mod error;
mod keccak;
mod score;
mod solution;
mod solver;

pub use solution::lemma_solution_round_trip;
pub use solution::Solution;

pub use canonical::canonical_digest;
pub use canonical::lemma_canonical_idempotent;
pub use canonical::lemma_canonical_of_permutation;
pub use canonical::sorted;
pub use canonical::words_of;

pub use error::DrillxError;
pub use score::difficulty;
pub use score::leading_zero_bits;
pub use score::lemma_leading_zero_bits_bounds;
pub use keccak::keccak256_of;
pub use solver::equix_solutions;
pub use solver::equix_verifies;

verus! {

/// The seed handed to the solver: the challenge followed by the nonce.
pub open spec fn seed_bytes(challenge: Seq<u8>, nonce: Seq<u8>) -> Seq<u8> {
    challenge + nonce
}

/// Concatenates a challenge and a nonce into the 40-byte solver seed.
pub fn seed(challenge: &[u8; 32], nonce: &[u8; 8]) -> (r: [u8; 40])
    ensures
        r@ == seed_bytes(challenge@, nonce@),
{
    let mut r = [0u8; 40];
    let mut i: usize = 0;
    while i < 32
        invariant
            i <= 32,
            forall|j: int| 0 <= j < i ==> r@[j] == challenge@[j],
        decreases 32 - i,
    {
        r[i] = challenge[i];
        i = i + 1;
    }
    let mut k: usize = 0;
    while k < 8
        invariant
            k <= 8,
            forall|j: int| 0 <= j < 32 ==> r@[j] == challenge@[j],
            forall|j: int| 0 <= j < k ==> r@[32 + j] == nonce@[j],
        decreases 8 - k,
    {
        r[32 + k] = nonce[k];
        k = k + 1;
    }
    proof {
        assert(r@ =~= challenge@ + nonce@);
    }
    r
}

/// The final 32-byte hash of a digest and a nonce: keccak-256 of the
/// digest's canonical form followed by the nonce.
pub open spec fn hashv_spec(d: Seq<u8>, n: Seq<u8>) -> Seq<u8> {
    keccak256_of(canonical_digest(d) + n)
}

/// Hashes a digest and nonce, sorting the digest first so that every
/// encoding of the same logical solution scores identically.
pub(crate) fn hashv(digest: &[u8; 16], nonce: &[u8; 8]) -> (r: [u8; 32])
    ensures
        r@ == hashv_spec(digest@, nonce@),
{
    let s = canonical::sorted(*digest);
    let mut buf = [0u8; 24];
    let mut i: usize = 0;
    while i < 16
        invariant
            i <= 16,
            s@ == canonical_digest(digest@),
            forall|j: int| 0 <= j < i ==> buf@[j] == s@[j],
        decreases 16 - i,
    {
        buf[i] = s[i];
        i = i + 1;
    }
    let mut k: usize = 0;
    while k < 8
        invariant
            k <= 8,
            s@ == canonical_digest(digest@),
            forall|j: int| 0 <= j < 16 ==> buf@[j] == s@[j],
            forall|j: int| 0 <= j < k ==> buf@[16 + j] == nonce@[j],
        decreases 8 - k,
    {
        buf[16 + k] = nonce[k];
        k = k + 1;
    }
    proof {
        assert(buf@ =~= canonical_digest(digest@) + nonce@);
    }
    keccak::keccak256(&buf)
}

/// The result of one successful solve: the solver's digest and its final
/// canonical hash.
#[derive(Default)]
pub struct Hash {
    /// The 16-byte digest the solver produced.
    pub d: [u8; 16],
    /// The 32-byte hash of the canonical digest and the nonce.
    pub h: [u8; 32],
}

impl Hash {
    /// The number of leading zero bits on the hash.
    pub fn difficulty(&self) -> (r: u32)
        ensures
            r == leading_zero_bits(self.h@),
            r <= 256,
    {
        score::difficulty(self.h)
    }
}

/// The solver's solution list for a challenge and nonce.
pub open spec fn solution_list(c: Seq<u8>, n: Seq<u8>) -> Option<Seq<Seq<u8>>> {
    equix_solutions(seed_bytes(c, n))
}

/// Whether the solver finds at least one solution for a challenge and nonce.
pub open spec fn hash_found(c: Seq<u8>, n: Seq<u8>) -> bool {
    solution_list(c, n) matches Some(sols) && sols.len() > 0
}

/// What a successful hash must hand back for a challenge and nonce: the
/// first solution's digest and that digest's canonical hash. Every pair
/// satisfying this is unique, so repeated or memory-reusing calls agree.
pub open spec fn hash_ok(c: Seq<u8>, n: Seq<u8>, d: Seq<u8>, h: Seq<u8>) -> bool {
    &&& hash_found(c, n)
    &&& d == solution_list(c, n)->Some_0[0]
    &&& h == hashv_spec(d, n)
}

/// The full contract of `hash` and `hash_with_memory`: success exactly when
/// the solver finds a solution, the digest verifiable and canonically
/// hashed, and each error naming its cause.
pub open spec fn hash_post(c: Seq<u8>, n: Seq<u8>, r: Result<Hash, DrillxError>) -> bool {
    &&& r is Ok <==> hash_found(c, n)
    &&& r matches Ok(h) ==> hash_ok(c, n, h.d@, h.h@) && equix_verifies(seed_bytes(c, n), h.d@)
    &&& (r matches Err(e) && e is BadEquix) <==> solution_list(c, n) is None
    &&& (r matches Err(e) && e is NoSolutions) <==> (solution_list(c, n) matches Some(sols)
        && sols.len() == 0)
}

/// Produces the proof-of-work hash for a challenge and nonce.
pub fn hash(challenge: &[u8; 32], nonce: &[u8; 8]) -> (r: Result<Hash, DrillxError>)
    ensures
        hash_post(challenge@, nonce@, r),
{
    match solver::digest(challenge, nonce) {
        Ok(digest) => Ok(Hash { d: digest, h: hashv(&digest, nonce) }),
        Err(e) => Err(e),
    }
}

/// Produces the proof-of-work hash for a challenge and nonce, reusing
/// caller-owned solver scratch memory across calls. The outcome is the
/// same as `hash`: memory reuse is a pure performance choice.
pub fn hash_with_memory(
    memory: &mut equix::SolverMemory,
    challenge: &[u8; 32],
    nonce: &[u8; 8],
) -> (r: Result<Hash, DrillxError>)
    ensures
        hash_post(challenge@, nonce@, r),
{
    match solver::digest_with_memory(memory, challenge, nonce) {
        Ok(digest) => Ok(Hash { d: digest, h: hashv(&digest, nonce) }),
        Err(e) => Err(e),
    }
}

/// Returns true if the digest is a solution the Equi-X verifier accepts for
/// the seed built from this challenge and nonce.
pub fn is_valid_digest(challenge: &[u8; 32], nonce: &[u8; 8], digest: &[u8; 16]) -> (r: bool)
    ensures
        r == equix_verifies(seed_bytes(challenge@, nonce@), digest@),
{
    let s = seed(challenge, nonce);
    solver::verify_seed_digest(&s, digest)
}

/// A successful hash is a function of the challenge and nonce alone: any
/// two results that satisfy `hash_ok` for the same pair agree on digest and
/// hash. Repeated calls, and calls with or without reused scratch memory,
/// therefore yield identical output.
pub proof fn lemma_hash_deterministic(
    c: Seq<u8>,
    n: Seq<u8>,
    d1: Seq<u8>,
    h1: Seq<u8>,
    d2: Seq<u8>,
    h2: Seq<u8>,
)
    requires
        hash_ok(c, n, d1, h1),
        hash_ok(c, n, d2, h2),
    ensures
        d1 == d2,
        h1 == h2,
{
}

/// Two digests holding the same 8 words in any orders hash identically
/// with any nonce: presenting a permuted encoding of a solution cannot
/// change its score.
pub proof fn lemma_hashv_malleability_resistant(d1: Seq<u8>, d2: Seq<u8>, n: Seq<u8>)
    requires
        words_of(d1).to_multiset() == words_of(d2).to_multiset(),
    ensures
        hashv_spec(d1, n) == hashv_spec(d2, n),
{
    lemma_canonical_of_permutation(d1, d2);
}

} // verus!
