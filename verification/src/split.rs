//! Basis-point shares of the distributable pot, and the conservation laws of
//! the three-way split.

use vstd::arithmetic::div_mod::lemma_div_is_ordered;
use vstd::arithmetic::div_mod::lemma_div_multiples_vanish;
use vstd::arithmetic::div_mod::lemma_div_pos_is_pos;
use vstd::arithmetic::div_mod::lemma_fundamental_div_mod;
use vstd::arithmetic::mul::lemma_mul_inequality;
use vstd::prelude::*;

verus! {

/// The share that `bps` basis points take of `amount`: parts per 10,000,
/// rounded down.
pub open spec fn share_bps(amount: int, bps: u16) -> int {
    (amount * bps) / 10000
}

/// A share never exceeds what it is taken of, as long as the split is at
/// most 100%.
pub proof fn lemma_share_bounds(amount: int, bps: u16)
    requires
        amount >= 0,
        bps <= 10000,
    ensures
        0 <= share_bps(amount, bps) <= amount,
{
    lemma_mul_inequality(bps as int, 10000, amount);
    assert(amount * bps == bps * amount) by (nonlinear_arith);
    assert(amount * 10000 == 10000 * amount) by (nonlinear_arith);
    lemma_div_is_ordered(amount * bps, amount * 10000, 10000);
    lemma_div_multiples_vanish(amount, 10000);
    assert(amount * bps >= 0) by (nonlinear_arith)
        requires
            amount >= 0,
            bps >= 0,
    ;
    lemma_div_pos_is_pos(amount * bps, 10000);
}

/// Two shares whose basis points sum to at most 100% together never exceed
/// the amount they are taken of: settlement's checked subtraction cannot
/// underflow then.
pub proof fn lemma_shares_fit(amount: int, burn_bps: u16, fee_bps: u16)
    requires
        amount >= 0,
        burn_bps + fee_bps <= 10000,
    ensures
        share_bps(amount, burn_bps) + share_bps(amount, fee_bps) <= amount,
{
    let b = amount * burn_bps;
    let f = amount * fee_bps;
    lemma_fundamental_div_mod(b, 10000);
    lemma_fundamental_div_mod(f, 10000);
    assert(b / 10000 + f / 10000 <= amount) by (nonlinear_arith)
        requires
            b == 10000 * (b / 10000) + b % 10000,
            f == 10000 * (f / 10000) + f % 10000,
            0 <= b % 10000 < 10000,
            0 <= f % 10000 < 10000,
            b == amount * burn_bps,
            f == amount * fee_bps,
            burn_bps + fee_bps <= 10000,
            amount >= 0,
    ;
}

/// No value is created or destroyed by the split: the winner's amount is the
/// exact remainder, never negative, so the three parts sum back to the
/// distributable pot. Rounding loss accrues to the winner alone.
pub proof fn lemma_split_conserves(amount: int, burn_bps: u16, fee_bps: u16)
    requires
        amount >= 0,
        burn_bps <= 10000,
        fee_bps <= 10000,
        share_bps(amount, burn_bps) + share_bps(amount, fee_bps) <= amount,
    ensures
        amount - share_bps(amount, burn_bps) - share_bps(amount, fee_bps) >= 0,
        (amount - share_bps(amount, burn_bps) - share_bps(amount, fee_bps)) + share_bps(
            amount,
            burn_bps,
        ) + share_bps(amount, fee_bps) == amount,
{
    lemma_share_bounds(amount, burn_bps);
    lemma_share_bounds(amount, fee_bps);
}

/// The `bps` basis-point share of `amount`, computed in a widened domain and
/// narrowed back, as settlement does.
pub fn bps_share(amount: u64, bps: u16) -> (r: u64)
    requires
        bps <= 10000,
    ensures
        r == share_bps(amount as int, bps),
{
    proof {
        lemma_share_bounds(amount as int, bps);
        assert(amount as int * bps as int <= u64::MAX as int * 10000) by (nonlinear_arith)
            requires
                amount <= u64::MAX,
                bps <= 10000,
        ;
    }
    let wide: u128 = (amount as u128) * (bps as u128) / 10000;
    wide as u64
}

} // verus!
