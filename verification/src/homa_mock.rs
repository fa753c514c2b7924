//! The mock runtime pieces of the homa validator list tests: the accounts and
//! currencies it uses, the hooks that record slashes and guarantee shares, the
//! exchange rate and block number it provides, and its genesis balances.

use crate::exchange_rate::{ExchangeRate, spec_saturating_from_rational};
use crate::shares::{ShareKey, ShareMap, Shares};
use vstd::prelude::*;

verus! {

pub type AccountId = u128;

pub type BlockNumber = u64;

pub type Balance = u128;

pub const ALICE: AccountId = 0;

pub const BOB: AccountId = 1;

pub const VALIDATOR_1: AccountId = 2;

pub const VALIDATOR_2: AccountId = 3;

pub const VALIDATOR_3: AccountId = 4;

/// The account allowed to freeze validators and to slash them.
pub const ADMIN: AccountId = 10;

/// The smallest bond a guarantee may hold.
pub const MIN_BOND_AMOUNT: Balance = 100;

/// The number of blocks an unbonded guarantee stays locked.
pub const BONDING_DURATION: BlockNumber = 100;

/// The total guarantee a validator needs to be insured.
pub const VALIDATOR_INSURANCE_THRESHOLD: Balance = 200;

/// The token symbols that the mock runtime uses.
#[derive(Clone, Copy, Debug, PartialEq, Eq, Structural)]
pub enum TokenSymbol {
    ACA,
    LDOT,
}

/// A currency of the mock runtime.
#[derive(Clone, Copy, Debug, PartialEq, Eq, Structural)]
pub enum CurrencyId {
    Token(TokenSymbol),
}

/// The native currency.
pub fn aca() -> (c: CurrencyId)
    ensures
        c == CurrencyId::Token(TokenSymbol::ACA),
{
    CurrencyId::Token(TokenSymbol::ACA)
}

/// The liquid staking currency that guarantees are bonded in.
pub fn ldot() -> (c: CurrencyId)
    ensures
        c == CurrencyId::Token(TokenSymbol::LDOT),
{
    CurrencyId::Token(TokenSymbol::LDOT)
}

/// The ledger after a guarantee of `amount` grows under `key`: an existing
/// share grows, saturating at the largest balance; a missing one is created
/// with `amount`.
pub open spec fn increased(shares: ShareMap, key: ShareKey, amount: Balance) -> ShareMap {
    if shares.contains_key(key) {
        let sum: int = shares[key] + amount;
        shares.insert(key, if sum > u128::MAX { u128::MAX } else { sum as u128 })
    } else {
        shares.insert(key, amount)
    }
}

/// The ledger after a guarantee of `amount` shrinks under `key`: an existing
/// share shrinks, stopping at zero; a missing one is created with zero.
pub open spec fn decreased(shares: ShareMap, key: ShareKey, amount: Balance) -> ShareMap {
    if shares.contains_key(key) {
        shares.insert(key, if shares[key] >= amount { (shares[key] - amount) as u128 } else { 0 })
    } else {
        shares.insert(key, 0)
    }
}

/// Records the slashes that the module under test reports.
pub struct MockOnSlash;

impl MockOnSlash {
    /// Adds a slashed `amount` to the running total.
    pub fn happened(accumulated_slash: &mut Balance, amount: &Balance)
        requires
            *old(accumulated_slash) + *amount <= u128::MAX,
        ensures
            *final(accumulated_slash) == *old(accumulated_slash) + *amount,
    {
        *accumulated_slash = *accumulated_slash + *amount;
    }
}

/// Records the guarantees that grow: `(account, relay chain account, amount)`.
pub struct MockOnIncreaseGuarantee;

impl MockOnIncreaseGuarantee {
    /// Adds `amount` to the share of (`account`, `relay chain account`).
    pub fn happened(shares: &mut Shares, info: &(AccountId, AccountId, Balance))
        ensures
            final(shares)@ == increased(old(shares)@, (info.0, info.1), info.2),
    {
        let (account_id, relaychain_id, amount) = *info;
        match shares.get(account_id, relaychain_id) {
            Some(share) => shares.insert(account_id, relaychain_id, share.saturating_add(amount)),
            None => shares.insert(account_id, relaychain_id, amount),
        }
    }
}

/// Records the guarantees that shrink: `(account, relay chain account, amount)`.
pub struct MockOnDecreaseGuarantee;

impl MockOnDecreaseGuarantee {
    /// Takes `amount` from the share of (`account`, `relay chain account`).
    pub fn happened(shares: &mut Shares, info: &(AccountId, AccountId, Balance))
        ensures
            final(shares)@ == decreased(old(shares)@, (info.0, info.1), info.2),
    {
        let (account_id, relaychain_id, amount) = *info;
        match shares.get(account_id, relaychain_id) {
            Some(share) => shares.insert(account_id, relaychain_id, share.saturating_sub(amount)),
            None => shares.insert(account_id, relaychain_id, 0),
        }
    }
}

/// Provides the liquid staking exchange rate.
pub struct MockLiquidStakingExchangeProvider;

impl MockLiquidStakingExchangeProvider {
    /// One liquid token is worth half a staked token.
    pub fn get_exchange_rate() -> (r: ExchangeRate)
        ensures
            r.inner == spec_saturating_from_rational(1, 2),
            r.inner == 500_000_000_000_000_000u128,
    {
        ExchangeRate::saturating_from_rational(1, 2)
    }
}

/// The block number that the tests set, starting at zero.
pub struct MockBlockNumberProvider {
    block_number: BlockNumber,
}

impl MockBlockNumberProvider {
    pub closed spec fn spec_get(&self) -> BlockNumber {
        self.block_number
    }

    /// A provider at block zero.
    pub fn new() -> (p: MockBlockNumberProvider)
        ensures
            p.spec_get() == 0,
    {
        MockBlockNumberProvider { block_number: 0 }
    }

    /// The block number set last.
    pub fn get(&self) -> (n: BlockNumber)
        ensures
            n == self.spec_get(),
    {
        self.block_number
    }

    /// Sets the block number.
    pub fn set(&mut self, block_number: &BlockNumber)
        ensures
            final(self).spec_get() == *block_number,
    {
        self.block_number = *block_number;
    }

    /// The current block number: the one set last.
    pub fn current_block_number(&self) -> (n: BlockNumber)
        ensures
            n == self.spec_get(),
    {
        self.get()
    }
}

/// The genesis token balances of a test.
pub struct ExtBuilder {
    balances: Vec<(AccountId, CurrencyId, Balance)>,
}

impl ExtBuilder {
    pub closed spec fn spec_balances(&self) -> Seq<(AccountId, CurrencyId, Balance)> {
        self.balances@
    }

    /// The genesis balances: `(account, currency, free balance)`.
    pub fn balances(&self) -> (b: &Vec<(AccountId, CurrencyId, Balance)>)
        ensures
            b@ == self.spec_balances(),
    {
        &self.balances
    }
}

impl Default for ExtBuilder {
    /// Alice and Bob each hold 1000 LDOT.
    fn default() -> (b: ExtBuilder)
        ensures
            b.spec_balances() == seq![
                (ALICE, CurrencyId::Token(TokenSymbol::LDOT), 1000u128),
                (BOB, CurrencyId::Token(TokenSymbol::LDOT), 1000u128),
            ],
    {
        ExtBuilder { balances: vec![(ALICE, ldot(), 1000), (BOB, ldot(), 1000)] }
    }
}

/// A guarantee that grows by `amount` and then shrinks by the same amount
/// leaves an existing share as it was, where the growth did not saturate.
pub proof fn lemma_increase_then_decrease_restores(shares: ShareMap, key: ShareKey, amount: Balance)
    requires
        shares.contains_key(key),
        shares[key] + amount <= u128::MAX,
    ensures
        decreased(increased(shares, key, amount), key, amount) == shares,
{
    assert(decreased(increased(shares, key, amount), key, amount) =~= shares);
}

/// A guarantee that shrinks by `amount` and then grows by the same amount
/// leaves an existing share as it was, where the share held at least `amount`.
pub proof fn lemma_decrease_then_increase_restores(shares: ShareMap, key: ShareKey, amount: Balance)
    requires
        shares.contains_key(key),
        shares[key] >= amount,
    ensures
        increased(decreased(shares, key, amount), key, amount) == shares,
{
    assert(increased(decreased(shares, key, amount), key, amount) =~= shares);
}

/// Growing and shrinking a guarantee touch no other key, and always leave a
/// share recorded under the key.
pub proof fn lemma_guarantee_hooks_touch_one_key(
    shares: ShareMap,
    key: ShareKey,
    amount: Balance,
    other: ShareKey,
)
    requires
        other != key,
    ensures
        increased(shares, key, amount).contains_key(key),
        decreased(shares, key, amount).contains_key(key),
        increased(shares, key, amount).contains_key(other) == shares.contains_key(other),
        decreased(shares, key, amount).contains_key(other) == shares.contains_key(other),
        shares.contains_key(other) ==> increased(shares, key, amount)[other] == shares[other],
        shares.contains_key(other) ==> decreased(shares, key, amount)[other] == shares[other],
{
}

/// A share never grows when it shrinks, and never shrinks when it grows.
pub proof fn lemma_guarantee_hooks_monotone(shares: ShareMap, key: ShareKey, amount: Balance)
    requires
        shares.contains_key(key),
    ensures
        decreased(shares, key, amount)[key] <= shares[key],
        increased(shares, key, amount)[key] >= shares[key],
{
}

/// Growing a guarantee records, under its key, the old share plus `amount`,
/// or the largest balance where that sum does not fit; a key with no share yet
/// gets exactly `amount`. Shrinking a guarantee records the old share less
/// `amount`, or zero where the share is smaller; a key with no share yet gets
/// zero. The ledger holds the same keys as before, and the key.
pub proof fn lemma_guarantee_hooks_amounts(shares: ShareMap, key: ShareKey, amount: Balance)
    ensures
        increased(shares, key, amount).dom() == shares.dom().insert(key),
        decreased(shares, key, amount).dom() == shares.dom().insert(key),
        !shares.contains_key(key) ==> increased(shares, key, amount)[key] == amount,
        !shares.contains_key(key) ==> decreased(shares, key, amount)[key] == 0,
        shares.contains_key(key) && shares[key] + amount <= u128::MAX ==> increased(
            shares,
            key,
            amount,
        )[key] == shares[key] + amount,
        shares.contains_key(key) && shares[key] + amount > u128::MAX ==> increased(
            shares,
            key,
            amount,
        )[key] == u128::MAX,
        shares.contains_key(key) && shares[key] >= amount ==> decreased(shares, key, amount)[key]
            == shares[key] - amount,
        shares.contains_key(key) && shares[key] < amount ==> decreased(shares, key, amount)[key]
            == 0,
{
    assert(increased(shares, key, amount).dom() =~= shares.dom().insert(key));
    assert(decreased(shares, key, amount).dom() =~= shares.dom().insert(key));
}

} // verus!
