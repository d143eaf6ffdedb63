//! The boundary to the outside Equi-X solver.
//!
//! Everything the library believes about the solver is stated here, on two
//! named results: the list of solutions it finds for a seed, and whether it
//! accepts a seed/digest pair. The search itself is out of scope; only the
//! call contract is relied on.

use vstd::prelude::*;
use crate::error::DrillxError;
use crate::seed_bytes;

verus! {

/// The list of 16-byte digest encodings that the Equi-X solver finds for a
/// 40-byte seed, in the order it reports them; `None` when the seed cannot
/// be compiled into a search program. The solver's output is a function of
/// the seed alone, whichever runtime or scratch memory runs the search.
pub uninterp spec fn equix_solutions(seed: Seq<u8>) -> Option<Seq<Seq<u8>>>;

/// Whether the Equi-X verifier accepts a 16-byte digest as a well-formed
/// solution for a 40-byte seed; a function of the pair alone.
pub uninterp spec fn equix_verifies(seed: Seq<u8>, digest: Seq<u8>) -> bool;

#[verifier::external_type_specification]
#[verifier::external_body]
pub struct ExSolverMemory(equix::SolverMemory);

#[verifier::external_type_specification]
#[verifier::external_body]
pub struct ExEquixError(equix::Error);

/// Relies on equix::solve: builds an Equi-X instance for the seed with the
/// default options and returns every solution found, each already in its
/// packed 16-byte encoding (equix::Solution::to_bytes). The instance fails
/// to build for a small fraction of seeds; solutions the solver reports are
/// in tree order with matching tree sums, so the verifier accepts them.
#[verifier::external_body]
fn solve_seed(seed: &[u8; 40]) -> (r: Result<Vec<[u8; 16]>, equix::Error>)
    ensures
        r is Ok <==> equix_solutions(seed@) is Some,
        r matches Ok(sols) ==> Some(sols@.map_values(|d: [u8; 16]| d@)) == equix_solutions(
            seed@,
        ),
        r matches Ok(sols) ==> forall|i: int|
            0 <= i < sols@.len() ==> equix_verifies(seed@, (#[trigger] sols@[i])@),
{
    match equix::solve(seed) {
        Ok(sols) => Ok(sols.iter().map(|s| s.to_bytes()).collect()),
        Err(e) => Err(e),
    }
}

/// Relies on equix::EquiXBuilder::build and equix::EquiX::solve_with_memory:
/// the same search as equix::solve over the same seed, reusing the caller's
/// scratch memory; the runtime option only selects how the hash program is
/// executed, never which solutions come out.
#[verifier::external_body]
fn solve_seed_with_memory(memory: &mut equix::SolverMemory, seed: &[u8; 40]) -> (r: Result<
    Vec<[u8; 16]>,
    equix::Error,
>)
    ensures
        r is Ok <==> equix_solutions(seed@) is Some,
        r matches Ok(sols) ==> Some(sols@.map_values(|d: [u8; 16]| d@)) == equix_solutions(
            seed@,
        ),
        r matches Ok(sols) ==> forall|i: int|
            0 <= i < sols@.len() ==> equix_verifies(seed@, (#[trigger] sols@[i])@),
{
    let mut builder = equix::EquiXBuilder::new();
    builder.runtime(equix::RuntimeOption::TryCompile);
    match builder.build(seed) {
        Ok(instance) => Ok(instance.solve_with_memory(memory).iter().map(|s| s.to_bytes()).collect()),
        Err(e) => Err(e),
    }
}

/// Relies on equix::verify_bytes: checks a seed/digest pair independently of
/// the search, accepting exactly the well-ordered encodings whose tree sums
/// match for that seed.
#[verifier::external_body]
pub(crate) fn verify_seed_digest(seed: &[u8; 40], digest: &[u8; 16]) -> (r: bool)
    ensures
        r == equix_verifies(seed@, digest@),
{
    equix::verify_bytes(seed, digest).is_ok()
}

/// What a successful solve must hand back for a given seed: the first entry
/// of the solver's non-empty solution list.
pub open spec fn digest_post(seed: Seq<u8>, r: Result<[u8; 16], DrillxError>) -> bool {
    &&& r is Ok <==> (equix_solutions(seed) matches Some(sols) && sols.len() > 0)
    &&& r matches Ok(d) ==> d@ == equix_solutions(seed)->Some_0[0] && equix_verifies(seed, d@)
    &&& r == Err::<[u8; 16], DrillxError>(DrillxError::BadEquix) <==> equix_solutions(
        seed,
    ) is None
    &&& r == Err::<[u8; 16], DrillxError>(DrillxError::NoSolutions) <==> (equix_solutions(
        seed,
    ) matches Some(sols) && sols.len() == 0)
}

/// Builds the seed, runs the solver, and hands back the first solution's
/// digest, re-verified defensively before it is returned.
pub(crate) fn digest(challenge: &[u8; 32], nonce: &[u8; 8]) -> (r: Result<[u8; 16], DrillxError>)
    ensures
        digest_post(seed_bytes(challenge@, nonce@), r),
{
    let s = crate::seed(challenge, nonce);
    match solve_seed(&s) {
        Err(_) => Err(DrillxError::BadEquix),
        Ok(sols) => {
            if sols.len() == 0 {
                return Err(DrillxError::NoSolutions);
            }
            let d = sols[0];
            if verify_seed_digest(&s, &d) {
                Ok(d)
            } else {
                Err(DrillxError::NoSolutions)
            }
        },
    }
}

/// As `digest`, but reuses caller-owned solver scratch memory; the digest
/// that comes out is the same.
pub(crate) fn digest_with_memory(
    memory: &mut equix::SolverMemory,
    challenge: &[u8; 32],
    nonce: &[u8; 8],
) -> (r: Result<[u8; 16], DrillxError>)
    ensures
        digest_post(seed_bytes(challenge@, nonce@), r),
{
    let s = crate::seed(challenge, nonce);
    match solve_seed_with_memory(memory, &s) {
        Err(_) => Err(DrillxError::BadEquix),
        Ok(sols) => {
            if sols.len() == 0 {
                return Err(DrillxError::NoSolutions);
            }
            let d = sols[0];
            if verify_seed_digest(&s, &d) {
                Ok(d)
            } else {
                Err(DrillxError::NoSolutions)
            }
        },
    }
}

} // verus!
