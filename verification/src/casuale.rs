//! The random draws of the library, made with the `rand` crate on the
//! calling thread's generator. Their contracts are trusted, not proved.

use rand::Rng;
use vstd::prelude::*;

verus! {

/// Calls `rand::Rng::gen_range` on `rand::thread_rng()` with the inclusive
/// range `minimo..=massimo`. The call panics on an empty range, hence the
/// precondition; all that is claimed of the result is that it lies in the
/// range.
#[verifier::external_body]
pub(crate) fn intero_tra(minimo: u64, massimo: u64) -> (estratto: u64)
    requires
        minimo <= massimo,
    ensures
        minimo <= estratto <= massimo,
{
    rand::thread_rng().gen_range(minimo..=massimo)
}

/// Calls `rand::random::<bool>()`: a fair coin. Nothing is claimed of the
/// result.
#[verifier::external_body]
pub(crate) fn moneta() -> bool {
    rand::random::<bool>()
}

} // verus!
