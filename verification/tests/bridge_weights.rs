use acala_test_support::bridge_weights::{AcalaWeight, WeightInfo, BRIDGE_CALL_REF_TIME};
use acala_test_support::weight::Weight;

#[test]
fn bridge_calls_weigh_eight_million() {
    let expected = Weight::from_parts(8_000_000, 0);
    assert_eq!(BRIDGE_CALL_REF_TIME, 8_000_000);
    assert_eq!(<AcalaWeight<u32> as WeightInfo>::set_bridged_stable_coin_address(), expected);
    assert_eq!(<AcalaWeight<u32> as WeightInfo>::to_bridged(), expected);
    assert_eq!(<AcalaWeight<u32> as WeightInfo>::from_bridged(), expected);
}

#[test]
fn unit_weights_match_acala_weights() {
    assert_eq!(<() as WeightInfo>::set_bridged_stable_coin_address(), <AcalaWeight<()> as WeightInfo>::set_bridged_stable_coin_address());
    assert_eq!(<() as WeightInfo>::to_bridged(), <AcalaWeight<()> as WeightInfo>::to_bridged());
    assert_eq!(<() as WeightInfo>::from_bridged(), <AcalaWeight<()> as WeightInfo>::from_bridged());
}

#[test]
fn weight_parts() {
    let w = Weight::from_ref_time(7);
    assert_eq!(w.ref_time(), 7);
    assert_eq!(w.proof_size(), 0);
    let v = Weight::from_parts(3, 4);
    assert_eq!((v.ref_time(), v.proof_size()), (3, 4));
}
