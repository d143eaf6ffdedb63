//! Errors returned while producing a proof-of-work hash.

use vstd::prelude::*;

verus! {

/// Why no hash could be produced for a (challenge, nonce) pair.
///
/// Both cases are recoverable: the caller moves on to another nonce.
#[derive(Debug, Clone, Copy)]
pub enum DrillxError {
    /// The seed could not be compiled into an Equi-X search context.
    BadEquix,
    /// The search context was built but yielded no solutions for this seed.
    NoSolutions,
}

} // verus!
