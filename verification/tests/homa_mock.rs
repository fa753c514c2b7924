use acala_test_support::exchange_rate::{ExchangeRate, ACCURACY};
use acala_test_support::homa_mock::{
    aca, ldot, CurrencyId, ExtBuilder, MockBlockNumberProvider, MockLiquidStakingExchangeProvider,
    MockOnDecreaseGuarantee, MockOnIncreaseGuarantee, MockOnSlash, TokenSymbol, ADMIN, ALICE, BOB,
    VALIDATOR_1, VALIDATOR_2, VALIDATOR_3,
};
use acala_test_support::shares::Shares;

#[test]
fn slashes_add_up() {
    let mut total: u128 = 0;
    MockOnSlash::happened(&mut total, &10);
    MockOnSlash::happened(&mut total, &5);
    assert_eq!(total, 15);
    let mut once: u128 = 0;
    MockOnSlash::happened(&mut once, &15);
    assert_eq!(once, total);
}

#[test]
fn increase_guarantee_creates_then_adds() {
    let mut shares = Shares::new();
    assert_eq!(shares.get(ALICE, VALIDATOR_1), None);
    MockOnIncreaseGuarantee::happened(&mut shares, &(ALICE, VALIDATOR_1, 100));
    assert_eq!(shares.get(ALICE, VALIDATOR_1), Some(100));
    MockOnIncreaseGuarantee::happened(&mut shares, &(ALICE, VALIDATOR_1, 50));
    assert_eq!(shares.get(ALICE, VALIDATOR_1), Some(150));
    assert_eq!(shares.len(), 1);
}

#[test]
fn increase_guarantee_saturates() {
    let mut shares = Shares::new();
    MockOnIncreaseGuarantee::happened(&mut shares, &(ALICE, VALIDATOR_1, u128::MAX - 1));
    MockOnIncreaseGuarantee::happened(&mut shares, &(ALICE, VALIDATOR_1, 10));
    assert_eq!(shares.get(ALICE, VALIDATOR_1), Some(u128::MAX));
}

#[test]
fn decrease_guarantee_subtracts_and_floors_at_zero() {
    let mut shares = Shares::new();
    MockOnIncreaseGuarantee::happened(&mut shares, &(BOB, VALIDATOR_2, 100));
    MockOnDecreaseGuarantee::happened(&mut shares, &(BOB, VALIDATOR_2, 30));
    assert_eq!(shares.get(BOB, VALIDATOR_2), Some(70));
    MockOnDecreaseGuarantee::happened(&mut shares, &(BOB, VALIDATOR_2, 100));
    assert_eq!(shares.get(BOB, VALIDATOR_2), Some(0));
}

#[test]
fn decrease_guarantee_on_missing_share_records_zero() {
    let mut shares = Shares::new();
    MockOnDecreaseGuarantee::happened(&mut shares, &(ALICE, VALIDATOR_3, 20));
    assert_eq!(shares.get(ALICE, VALIDATOR_3), Some(0));
    assert_eq!(shares.len(), 1);
}

#[test]
fn guarantee_hooks_leave_other_pairs_alone() {
    let mut shares = Shares::new();
    MockOnIncreaseGuarantee::happened(&mut shares, &(ALICE, VALIDATOR_1, 100));
    MockOnIncreaseGuarantee::happened(&mut shares, &(BOB, VALIDATOR_1, 200));
    MockOnIncreaseGuarantee::happened(&mut shares, &(ALICE, VALIDATOR_2, 300));
    MockOnDecreaseGuarantee::happened(&mut shares, &(BOB, VALIDATOR_1, 50));
    assert_eq!(shares.get(ALICE, VALIDATOR_1), Some(100));
    assert_eq!(shares.get(BOB, VALIDATOR_1), Some(150));
    assert_eq!(shares.get(ALICE, VALIDATOR_2), Some(300));
    assert_eq!(shares.get(BOB, VALIDATOR_2), None);
    assert_eq!(shares.len(), 3);
}

#[test]
fn increase_then_decrease_restores_share() {
    let mut shares = Shares::new();
    MockOnIncreaseGuarantee::happened(&mut shares, &(ALICE, VALIDATOR_1, 400));
    MockOnIncreaseGuarantee::happened(&mut shares, &(ALICE, VALIDATOR_1, 123));
    MockOnDecreaseGuarantee::happened(&mut shares, &(ALICE, VALIDATOR_1, 123));
    assert_eq!(shares.get(ALICE, VALIDATOR_1), Some(400));
    MockOnDecreaseGuarantee::happened(&mut shares, &(ALICE, VALIDATOR_1, 7));
    MockOnIncreaseGuarantee::happened(&mut shares, &(ALICE, VALIDATOR_1, 7));
    assert_eq!(shares.get(ALICE, VALIDATOR_1), Some(400));
}

#[test]
fn shares_insert_replaces() {
    let mut shares = Shares::new();
    shares.insert(ALICE, BOB, 5);
    shares.insert(ALICE, BOB, 9);
    assert_eq!(shares.get(ALICE, BOB), Some(9));
    assert_eq!(shares.get(BOB, ALICE), None);
    assert_eq!(shares.len(), 1);
}

#[test]
fn exchange_rate_is_one_half() {
    let rate = MockLiquidStakingExchangeProvider::get_exchange_rate();
    assert_eq!(rate.into_inner(), 500_000_000_000_000_000);
    assert_eq!(rate.into_inner() * 2, ACCURACY);
}

#[test]
fn exchange_rate_rounds_down_and_saturates() {
    assert_eq!(ExchangeRate::saturating_from_rational(1, 3).into_inner(), 333_333_333_333_333_333);
    assert_eq!(ExchangeRate::saturating_from_rational(2, 3).into_inner(), 666_666_666_666_666_666);
    assert_eq!(ExchangeRate::saturating_from_rational(u128::MAX, 1).into_inner(), u128::MAX);
    assert_eq!(ExchangeRate::saturating_from_rational(0, 5).into_inner(), 0);
    assert_eq!(ExchangeRate::from_inner(42).into_inner(), 42);
}

#[test]
fn block_number_starts_at_zero_and_follows_set() {
    let mut provider = MockBlockNumberProvider::new();
    assert_eq!(provider.current_block_number(), 0);
    provider.set(&42);
    assert_eq!(provider.get(), 42);
    assert_eq!(provider.current_block_number(), 42);
}

#[test]
fn default_genesis_gives_alice_and_bob_ldot() {
    let builder = ExtBuilder::default();
    assert_eq!(builder.balances(), &vec![(ALICE, ldot(), 1000), (BOB, ldot(), 1000)]);
}

#[test]
fn accounts_and_currencies() {
    assert_eq!((ALICE, BOB, VALIDATOR_1, VALIDATOR_2, VALIDATOR_3, ADMIN), (0, 1, 2, 3, 4, 10));
    assert_eq!(aca(), CurrencyId::Token(TokenSymbol::ACA));
    assert_eq!(ldot(), CurrencyId::Token(TokenSymbol::LDOT));
    assert_ne!(aca(), ldot());
}
