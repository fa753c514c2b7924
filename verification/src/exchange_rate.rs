//! Exchange rates between a liquid staking token and its staked currency, as
//! fixed-point numbers with eighteen decimal places.

use sp_arithmetic::{FixedPointNumber, FixedU128};
use vstd::prelude::*;

verus! {

/// The number of inner units in one: a rate holds `inner / ACCURACY`.
pub const ACCURACY: u128 = 1_000_000_000_000_000_000u128;

/// `n / d` in inner units, rounded down, saturated at the largest `u128`.
pub open spec fn spec_saturating_from_rational(n: u128, d: u128) -> u128 {
    let q: int = (n as int) * (ACCURACY as int) / (d as int);
    if q <= u128::MAX {
        q as u128
    } else {
        u128::MAX
    }
}

/// Makes the `FixedU128` equal to `n / d` with
/// `FixedPointNumber::saturating_from_rational` of `sp_arithmetic`, and hands
/// back its inner value: `n * 10^18 / d` rounded down, or the largest `u128`
/// where that does not fit. A zero `d` panics, which `requires` excludes.
#[verifier::external_body]
fn fixed_u128_saturating_from_rational(n: u128, d: u128) -> (inner: u128)
    requires
        d != 0,
    ensures
        inner == spec_saturating_from_rational(n, d),
{
    FixedU128::saturating_from_rational(n, d).into_inner()
}

/// An unsigned fixed-point rate with eighteen decimal places, the value that
/// `FixedU128` holds.
#[derive(Clone, Copy, Debug, PartialEq, Eq, Structural)]
pub struct ExchangeRate {
    pub inner: u128,
}

impl ExchangeRate {
    /// The rate whose inner value is `inner`.
    pub fn from_inner(inner: u128) -> (r: ExchangeRate)
        ensures
            r.inner == inner,
    {
        ExchangeRate { inner }
    }

    /// The inner value of the rate.
    pub fn into_inner(self) -> (inner: u128)
        ensures
            inner == self.inner,
    {
        self.inner
    }

    /// The rate `n / d`, rounded down to the accuracy and saturated at the
    /// largest representable rate.
    pub fn saturating_from_rational(n: u128, d: u128) -> (r: ExchangeRate)
        requires
            d != 0,
        ensures
            r.inner == spec_saturating_from_rational(n, d),
    {
        ExchangeRate { inner: fixed_u128_saturating_from_rational(n, d) }
    }
}

/// The rate made of `n / d` is the largest rate not above `n / d`, unless
/// that rate does not fit, in which case it is the largest rate there is.
pub proof fn lemma_saturating_from_rational_bounds(n: u128, d: u128)
    requires
        d != 0,
    ensures
        spec_saturating_from_rational(n, d) * d <= n * ACCURACY,
        spec_saturating_from_rational(n, d) < u128::MAX ==> n * ACCURACY < (
        spec_saturating_from_rational(n, d) + 1) * d,
        n * ACCURACY >= (u128::MAX + 1) * d ==> spec_saturating_from_rational(n, d) == u128::MAX,
{
    let x: int = (n as int) * (ACCURACY as int);
    let q: int = x / (d as int);
    vstd::arithmetic::div_mod::lemma_fundamental_div_mod(x, d as int);
    assert(x == (d as int) * q + x % (d as int));
    assert(0 <= x % (d as int) < d);
    assert(q * d <= x) by (nonlinear_arith)
        requires
            x == (d as int) * q + x % (d as int),
            0 <= x % (d as int),
    ;
    assert(x < (q + 1) * d) by (nonlinear_arith)
        requires
            x == (d as int) * q + x % (d as int),
            x % (d as int) < d,
    ;
    if q > u128::MAX {
        assert((u128::MAX as int) * d <= q * d) by (nonlinear_arith)
            requires
                q > u128::MAX,
                d > 0,
        ;
    }
    if x >= (u128::MAX + 1) * d {
        assert(q >= u128::MAX + 1) by (nonlinear_arith)
            requires
                x >= (u128::MAX + 1) * d,
                x < (q + 1) * d,
                d > 0,
        ;
    }
}

} // verus!
