//! The weights of the honzon bridge calls.

use crate::weight::Weight;
use vstd::prelude::*;

verus! {

/// The computation time that each honzon bridge call is charged.
pub const BRIDGE_CALL_REF_TIME: u64 = 8_000_000;

/// The weight that each honzon bridge call is charged.
pub open spec fn spec_bridge_call_weight() -> Weight {
    Weight { ref_time: BRIDGE_CALL_REF_TIME, proof_size: 0 }
}

/// The weight of each honzon bridge call.
pub trait WeightInfo {
    fn set_bridged_stable_coin_address() -> Weight;

    fn to_bridged() -> Weight;

    fn from_bridged() -> Weight;
}

/// The weights measured on the Acala node and its recommended hardware.
/// The runtime type parameter only tells the runtimes apart.
pub struct AcalaWeight<T>(core::marker::PhantomData<T>);

impl<T> WeightInfo for AcalaWeight<T> {
    fn set_bridged_stable_coin_address() -> (w: Weight)
        ensures
            w == spec_bridge_call_weight(),
    {
        Weight::from_ref_time(BRIDGE_CALL_REF_TIME)
    }

    fn to_bridged() -> (w: Weight)
        ensures
            w == spec_bridge_call_weight(),
    {
        Weight::from_ref_time(BRIDGE_CALL_REF_TIME)
    }

    fn from_bridged() -> (w: Weight)
        ensures
            w == spec_bridge_call_weight(),
    {
        Weight::from_ref_time(BRIDGE_CALL_REF_TIME)
    }
}

/// The same weights, for tests and for callers that name no weights.
impl WeightInfo for () {
    fn set_bridged_stable_coin_address() -> (w: Weight)
        ensures
            w == spec_bridge_call_weight(),
    {
        Weight::from_ref_time(BRIDGE_CALL_REF_TIME)
    }

    fn to_bridged() -> (w: Weight)
        ensures
            w == spec_bridge_call_weight(),
    {
        Weight::from_ref_time(BRIDGE_CALL_REF_TIME)
    }

    fn from_bridged() -> (w: Weight)
        ensures
            w == spec_bridge_call_weight(),
    {
        Weight::from_ref_time(BRIDGE_CALL_REF_TIME)
    }
}

/// Every honzon bridge call is charged eight million units of computation
/// time and no proof size.
pub proof fn lemma_bridge_call_weight()
    ensures
        spec_bridge_call_weight().ref_time == 8_000_000,
        spec_bridge_call_weight().proof_size == 0,
{
}

} // verus!
