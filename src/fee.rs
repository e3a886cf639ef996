//! Splitting a gross contribution into its net part and its fee, and the
//! refund owed when a contribution overshoots the goal.
//!
//! Fee rates are whole basis points (hundredths of a percent), so every
//! amount here is computed exactly, with the result floored.
use vstd::prelude::*;
use vstd::arithmetic::div_mod::{
    lemma_fundamental_div_mod_converse,
    lemma_div_is_ordered,
    lemma_div_multiples_vanish,
};
use vstd::arithmetic::mul::lemma_mul_inequality;

verus! {

/// Basis points in one whole (100%).
pub const BASIS_POINTS_PER_WHOLE: u64 = 10000;

/// The fee charged on `gross` at a rate of `fee_bp` basis points, floored.
pub open spec fn fee_of(gross: int, fee_bp: int) -> int {
    gross * fee_bp / 10000
}

/// The part of a fee that is refunded along with `net_leftover` of a net
/// contribution `net`: the fee's proportional share, floored.
pub open spec fn fee_leftover_of(fee: int, net_leftover: int, net: int) -> int {
    fee * net_leftover / net
}

/// Whether `fee_bp` is a rate of at most 100%.
pub open spec fn valid_fee_rate(fee_bp: int) -> bool {
    0 <= fee_bp <= 10000
}

proof fn lemma_fee_by_parts(gross: int, fee_bp: int)
    requires
        gross >= 0,
        valid_fee_rate(fee_bp),
    ensures
        fee_of(gross, fee_bp) == (gross / 10000) * fee_bp + ((gross % 10000) * fee_bp) / 10000,
        0 <= fee_of(gross, fee_bp) <= gross,
{
    let q: int = gross / 10000;
    let r: int = gross % 10000;
    let rb: int = r * fee_bp;
    assert(0 <= rb < 10000 * 10000) by (nonlinear_arith)
        requires rb == r * fee_bp, 0 <= r < 10000, 0 <= fee_bp <= 10000;
    assert(gross * fee_bp == (q * fee_bp + rb / 10000) * 10000 + rb % 10000) by (nonlinear_arith)
        requires gross == 10000 * q + r, rb == r * fee_bp, rb == (rb / 10000) * 10000 + rb % 10000;
    lemma_fundamental_div_mod_converse(gross * fee_bp, 10000, q * fee_bp + rb / 10000, rb % 10000);
    lemma_mul_inequality(fee_bp, 10000, gross);
    assert(0 <= gross * fee_bp) by (nonlinear_arith) requires gross >= 0, fee_bp >= 0;
    lemma_div_is_ordered(gross * fee_bp, 10000 * gross, 10000);
    lemma_div_multiples_vanish(gross, 10000);
    assert(fee_bp * gross == gross * fee_bp) by (nonlinear_arith);
    assert(10000 * gross == gross * 10000) by (nonlinear_arith);
}

/// The fee is at most the gross amount.
pub proof fn lemma_fee_bounds(gross: int, fee_bp: int)
    requires
        gross >= 0,
        valid_fee_rate(fee_bp),
    ensures
        0 <= fee_of(gross, fee_bp) <= gross,
{
    lemma_fee_by_parts(gross, fee_bp);
}

/// The refunded share of a fee is at most the fee.
pub proof fn lemma_fee_leftover_bounds(fee: int, net_leftover: int, net: int)
    requires
        fee >= 0,
        0 <= net_leftover <= net,
        net > 0,
    ensures
        0 <= fee_leftover_of(fee, net_leftover, net) <= fee,
{
    lemma_mul_inequality(net_leftover, net, fee);
    assert(fee * net_leftover == net_leftover * fee) by (nonlinear_arith);
    assert(fee * net == net * fee) by (nonlinear_arith);
    assert(0 <= fee * net_leftover) by (nonlinear_arith) requires fee >= 0, net_leftover >= 0;
    lemma_div_is_ordered(fee * net_leftover, fee * net, net);
    lemma_div_is_ordered(0, fee * net_leftover, net);
    lemma_div_multiples_vanish(fee, net);
    assert(net * fee == fee * net) by (nonlinear_arith);
}

/// Splits a gross amount into `(net, fee)`: the fee is the floored share
/// `fee_bp / 10000` of `gross`, the net amount is the rest.
pub fn split_netto_and_fee(gross: u128, fee_bp: u64) -> (r: (u128, u128))
    requires
        valid_fee_rate(fee_bp as int),
    ensures
        r.1 == fee_of(gross as int, fee_bp as int),
        r.0 + r.1 == gross,
{
    proof {
        lemma_fee_by_parts(gross as int, fee_bp as int);
    }
    let q: u128 = gross / 10000;
    let rem: u128 = gross % 10000;
    proof {
        assert(q * fee_bp <= gross) by (nonlinear_arith)
            requires q == gross / 10000, fee_bp <= 10000, gross >= 0;
        assert(rem * fee_bp < 10000 * 10000) by (nonlinear_arith)
            requires rem < 10000, fee_bp <= 10000;
    }
    let fee: u128 = q * (fee_bp as u128) + rem * (fee_bp as u128) / 10000;
    (gross - fee, fee)
}

/// The leftover of a contribution that closes the goal: with `progress`
/// already funded toward `goal`, a net contribution `net` and its `fee`,
/// returns `(net_leftover, fee_leftover)`, where `net_leftover` is what
/// exceeds the goal and `fee_leftover` the proportional share of the fee.
/// Returns `None` where the intermediate product `fee * net_leftover`
/// does not fit in a `u128`.
pub fn calculate_leftovers(progress: u128, goal: u128, net: u128, fee: u128) -> (r: Option<(u128, u128)>)
    requires
        progress < goal,
        progress + net >= goal,
    ensures
        r is None <==> fee * (progress + net - goal) > u128::MAX,
        r matches Some((nl, fl)) ==> {
            &&& nl == progress + net - goal
            &&& fl == fee_leftover_of(fee as int, nl as int, net as int)
            &&& nl <= net
            &&& fl <= fee
            &&& progress + (net - nl) == goal
        },
{
    let net_leftover: u128 = net - (goal - progress);
    match fee.checked_mul(net_leftover) {
        None => None,
        Some(product) => {
            proof {
                lemma_fee_leftover_bounds(fee as int, net_leftover as int, net as int);
            }
            Some((net_leftover, product / net))
        },
    }
}

} // verus!
