//! What machines may use while generating sequences: a source of random numbers.
use vstd::prelude::*;

verus! {

/// Resources for machines to use when generating sequences, e.g. a source of random numbers.
pub struct MachineResources {}

impl MachineResources {
    /// Resources drawing random numbers from the thread-local generator of the `rand` crate.
    pub fn new() -> (r: MachineResources) {
        MachineResources {}
    }

    /// A random number from `rand::random`, the thread-local generator of the `rand` crate.
    /// Nothing is promised of the number: any `u64` may come back.
    #[verifier::external_body]
    pub fn random_u64(&mut self) -> u64 {
        rand::random::<u64>()
    }
}

} // verus!
