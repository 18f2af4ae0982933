//! The source of randomness for spawning.

use vstd::prelude::*;

verus! {

/// Relies on `rand::random::<u64>`: a number drawn from the thread-local
/// generator. Nothing is promised of its value.
#[verifier::external_body]
pub(crate) fn roll() -> (r: u64) {
    rand::random::<u64>()
}

} // verus!
