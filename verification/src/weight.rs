//! A two-dimensional dispatch weight: computation time and proof size.

use vstd::prelude::*;

verus! {

/// The weight of a dispatch, in picoseconds of reference computation time and
/// in bytes of storage proof, as `sp_weights::Weight` holds it.
#[derive(Clone, Copy, Debug, PartialEq, Eq, Structural)]
pub struct Weight {
    pub ref_time: u64,
    pub proof_size: u64,
}

impl Weight {
    /// A weight made of the two given components.
    pub fn from_parts(ref_time: u64, proof_size: u64) -> (w: Weight)
        ensures
            w.ref_time == ref_time,
            w.proof_size == proof_size,
    {
        Weight { ref_time, proof_size }
    }

    /// A weight with the given computation time and no proof size.
    pub fn from_ref_time(ref_time: u64) -> (w: Weight)
        ensures
            w.ref_time == ref_time,
            w.proof_size == 0,
    {
        Weight { ref_time, proof_size: 0 }
    }

    /// The computation time component.
    pub fn ref_time(&self) -> (r: u64)
        ensures
            r == self.ref_time,
    {
        self.ref_time
    }

    /// The proof size component.
    pub fn proof_size(&self) -> (r: u64)
        ensures
            r == self.proof_size,
    {
        self.proof_size
    }
}

} // verus!
