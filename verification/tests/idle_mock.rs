use acala_test_support::idle_mock::{
    base_weight, relay_block_key, BalancesTask, DispatchError, DispatchableTask, ExtBuilder,
    HomaLiteTask, MockBlockNumberProvider, ScheduledTasks, TaskResult, BASE_REF_TIME,
};
use acala_test_support::weight::Weight;

#[test]
fn base_weight_is_one_million() {
    assert_eq!(base_weight(), Weight::from_parts(1_000_000, 0));
    assert_eq!(BASE_REF_TIME, 1_000_000);
}

#[test]
fn balances_task_finishes_when_base_weight_fits() {
    let r = BalancesTask::OnIdle.dispatch(Weight::from_parts(1_000_000, 0));
    assert_eq!(r.result, Ok(()));
    assert_eq!(r.used_weight, base_weight());
    assert!(r.finished);
    let r = BalancesTask::OnIdle.dispatch(Weight::from_parts(999_999, 5_000));
    assert_eq!(r.used_weight, base_weight());
    assert!(!r.finished);
}

#[test]
fn homa_lite_task_finishes_when_base_weight_fits() {
    assert!(HomaLiteTask::OnIdle.dispatch(Weight::from_parts(2_000_000, 0)).finished);
    assert!(!HomaLiteTask::OnIdle.dispatch(Weight::from_parts(0, 0)).finished);
}

#[test]
fn combined_task_dispatches_the_task_held() {
    let w = Weight::from_parts(1_500_000, 0);
    let a: ScheduledTasks = BalancesTask::OnIdle.into();
    let b: ScheduledTasks = ScheduledTasks::from(HomaLiteTask::OnIdle);
    assert_eq!(a, ScheduledTasks::BalancesTask(BalancesTask::OnIdle));
    assert_eq!(b, ScheduledTasks::HomaLiteTask(HomaLiteTask::OnIdle));
    assert_eq!(a.dispatch(w), BalancesTask::OnIdle.dispatch(w));
    assert_eq!(b.dispatch(w), HomaLiteTask::OnIdle.dispatch(w));
    let small = Weight::from_parts(10, 0);
    assert!(!a.dispatch(small).finished);
}

#[test]
fn task_results_compare_by_fields() {
    let ok = TaskResult { result: Ok(()), used_weight: base_weight(), finished: true };
    let failed = TaskResult { result: Err(DispatchError::Other), used_weight: base_weight(), finished: true };
    let unfinished = TaskResult { result: Ok(()), used_weight: base_weight(), finished: false };
    assert_eq!(ok, ok);
    assert_ne!(ok, failed);
    assert_ne!(ok, unfinished);
    assert_eq!(failed, failed);
}

#[test]
fn relay_block_key_is_32_zero_bytes() {
    assert_eq!(relay_block_key(), vec![0u8; 32]);
}

#[test]
fn genesis_starts_at_block_one_with_relay_block_zero() {
    let genesis = ExtBuilder::default().build();
    assert_eq!(genesis.block_number, 1);
    assert_eq!(genesis.storage.len(), 1);
    assert_eq!(genesis.storage[0].0, vec![0u8; 32]);
    assert_eq!(genesis.storage[0].1, vec![0u8, 0, 0, 0]);
    let stored = Some(genesis.storage[0].1.clone());
    assert_eq!(MockBlockNumberProvider::current_block_number(&stored), 0);
}

#[test]
fn relay_block_number_decodes_little_endian() {
    let stored = Some(vec![1u8, 2, 3, 4]);
    assert_eq!(MockBlockNumberProvider::current_block_number(&stored), 0x0403_0201);
    let longer = Some(vec![0xffu8, 0, 0, 0, 9, 9]);
    assert_eq!(MockBlockNumberProvider::current_block_number(&longer), 255);
}
