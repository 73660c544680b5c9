//! Chance: the draws behind spawn places, rock plans and spins.

use vstd::prelude::*;

verus! {

/// `rand::random`: a 32-bit number drawn at random. Nothing is said of which.
#[verifier::external_body]
pub(crate) fn random_draw() -> (r: u32) {
    rand::random::<u32>()
}

} // verus!
