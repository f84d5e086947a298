//! Scaled-integer arithmetic for fees and constant-product pricing.
//!
//! Every amount is a raw integer; ratios are taken at full precision and
//! rounded down once, at the end, so any sub-unit remainder is absorbed by
//! the protocol, never paid out.

use vstd::prelude::*;
use vstd::arithmetic::div_mod::{
    lemma_div_is_ordered, lemma_div_multiples_vanish, lemma_div_pos_is_pos,
    lemma_fundamental_div_mod, lemma_multiply_divide_le,
};
use vstd::arithmetic::mul::{
    lemma_mul_inequality, lemma_mul_is_commutative, lemma_mul_nonnegative, lemma_mul_upper_bound,
};

verus! {

/// Fee percentages are held in hundredths of a percent: a fee of one percent
/// is 100, and every valid fee is strictly below this denominator.
pub const FEE_DENOM: u64 = 10_000;

/// `10^n`.
pub open spec fn pow10(n: nat) -> nat
    decreases n,
{
    if n == 0 {
        1
    } else {
        10 * pow10((n - 1) as nat)
    }
}

pub proof fn lemma_pow10_monotone(a: nat, b: nat)
    requires
        a <= b,
    ensures
        pow10(a) <= pow10(b),
    decreases b,
{
    if a < b {
        lemma_pow10_monotone(a, (b - 1) as nat);
    }
}

/// `10^decimals` as a machine word; a `u64` holds every power up to `10^19`.
pub fn pow10_u64(decimals: u8) -> (r: u64)
    requires
        decimals <= 19,
    ensures
        r == pow10(decimals as nat),
        r >= 1,
{
    proof {
        reveal_with_fuel(pow10, 20);
    }
    let mut r: u64 = 1;
    let mut i: u8 = 0;
    while i < decimals
        invariant
            i <= decimals,
            decimals <= 19,
            r == pow10(i as nat),
        decreases decimals - i,
    {
        proof {
            reveal_with_fuel(pow10, 20);
            lemma_pow10_monotone(i as nat, 18);
        }
        r = r * 10;
        i = i + 1;
    }
    r
}

/// What remains of `amount` once the fee is taken off: the net amount that
/// is actually priced against the curve.
pub open spec fn apply_fee_spec(amount: int, fee: int) -> int {
    amount * (FEE_DENOM - fee) / (FEE_DENOM as int)
}

/// The fee's own share of `amount`, rounded down.
pub open spec fn fee_portion_spec(amount: int, fee: int) -> int {
    amount * fee / (FEE_DENOM as int)
}

/// Constant-product output: what the curve pays out of `reserve_out` when
/// `adjusted` (net of fee) is added to `reserve_in`. Zero when both the
/// reserve and the net amount are zero, as an empty curve pays nothing.
pub open spec fn amount_out_spec(reserve_out: int, adjusted: int, reserve_in: int) -> int {
    if reserve_in + adjusted == 0 {
        0
    } else {
        reserve_out * adjusted / (reserve_in + adjusted)
    }
}

/// For nonnegative `a <= c` and `b`, scaling `b` by the ratio `a / c` and
/// rounding down never exceeds `b`.
pub proof fn lemma_mul_div_le(a: int, b: int, c: int)
    requires
        0 <= a,
        0 <= b,
        a <= c,
        0 < c,
    ensures
        a * b / c <= b,
        0 <= a * b / c,
{
    lemma_mul_inequality(a, c, b);
    lemma_mul_is_commutative(c, b);
    lemma_multiply_divide_le(a * b, c, b);
    lemma_mul_nonnegative(a, b);
    lemma_div_pos_is_pos(a * b, c);
}

/// Rounded-down division is monotone across fractions: if `a / c <= b / d`
/// as exact ratios (witnessed by `a * d <= b * c`), the floored quotients
/// are ordered the same way.
pub proof fn lemma_div_cross_monotone(a: int, b: int, c: int, d: int)
    requires
        0 <= a,
        0 <= b,
        0 < c,
        0 < d,
        a * d <= b * c,
    ensures
        a / c <= b / d,
{
    let q = a / c;
    lemma_fundamental_div_mod(a, c);
    lemma_div_pos_is_pos(a, c);
    assert(c * q <= a);
    assert((c * q) * d <= a * d) by {
        lemma_mul_inequality(c * q, a, d);
    }
    assert((c * q) * d == (q * d) * c) by (nonlinear_arith);
    assert((q * d) * c <= b * c);
    assert(q * d <= b) by {
        vstd::arithmetic::mul::lemma_mul_inequality_converse(q * d, b, c);
    }
    assert(d * q <= b) by {
        lemma_mul_is_commutative(d, q);
    }
    lemma_div_is_ordered(d * q, b, d);
    lemma_div_multiples_vanish(q, d);
}

/// Taking a fee never pays out more than was put in, in either split.
pub proof fn lemma_fee_split_bounds(amount: int, fee: int)
    requires
        0 <= amount,
        0 <= fee <= FEE_DENOM,
    ensures
        0 <= apply_fee_spec(amount, fee) <= amount,
        0 <= fee_portion_spec(amount, fee) <= amount,
{
    lemma_mul_is_commutative(amount, FEE_DENOM - fee);
    lemma_mul_div_le(FEE_DENOM - fee, amount, FEE_DENOM as int);
    lemma_mul_is_commutative(amount, fee);
    lemma_mul_div_le(fee, amount, FEE_DENOM as int);
}

/// The curve never pays out more than the reserve it draws on.
pub proof fn lemma_amount_out_bounds(reserve_out: int, adjusted: int, reserve_in: int)
    requires
        0 <= reserve_out,
        0 <= adjusted,
        0 <= reserve_in,
    ensures
        0 <= amount_out_spec(reserve_out, adjusted, reserve_in) <= reserve_out,
{
    if reserve_in + adjusted != 0 {
        lemma_mul_is_commutative(reserve_out, adjusted);
        lemma_mul_div_le(adjusted, reserve_out, reserve_in + adjusted);
    }
}

/// A larger net input never yields a smaller output, all else equal.
pub proof fn lemma_amount_out_monotone(
    reserve_out: int,
    adjusted1: int,
    adjusted2: int,
    reserve_in: int,
)
    requires
        0 <= reserve_out,
        0 <= adjusted1 <= adjusted2,
        0 <= reserve_in,
    ensures
        amount_out_spec(reserve_out, adjusted1, reserve_in)
            <= amount_out_spec(reserve_out, adjusted2, reserve_in),
{
    lemma_amount_out_bounds(reserve_out, adjusted2, reserve_in);
    if reserve_in + adjusted1 != 0 {
        assert((reserve_out * adjusted1) * (reserve_in + adjusted2) <= (reserve_out * adjusted2) * (
        reserve_in + adjusted1)) by (nonlinear_arith)
            requires
                0 <= reserve_out,
                0 <= adjusted1 <= adjusted2,
                0 <= reserve_in,
        ;
        lemma_mul_nonnegative(reserve_out, adjusted1);
        lemma_mul_nonnegative(reserve_out, adjusted2);
        lemma_div_cross_monotone(
            reserve_out * adjusted1,
            reserve_out * adjusted2,
            reserve_in + adjusted1,
            reserve_in + adjusted2,
        );
    }
}

/// A higher fee never leaves a larger net amount.
pub proof fn lemma_apply_fee_antitone(amount: int, fee1: int, fee2: int)
    requires
        0 <= amount,
        0 <= fee1 <= fee2 <= FEE_DENOM,
    ensures
        apply_fee_spec(amount, fee2) <= apply_fee_spec(amount, fee1),
{
    lemma_mul_inequality(FEE_DENOM - fee2, FEE_DENOM - fee1, amount);
    lemma_mul_is_commutative(FEE_DENOM - fee2, amount);
    lemma_mul_is_commutative(FEE_DENOM - fee1, amount);
    lemma_div_is_ordered(
        amount * (FEE_DENOM - fee2),
        amount * (FEE_DENOM - fee1),
        FEE_DENOM as int,
    );
}

/// Raising the platform fee never raises the swap output: the user's trade
/// buys no more of the counter-asset under a higher fee, all else equal.
pub proof fn lemma_fee_monotonicity(
    reserve_out: int,
    reserve_in: int,
    amount: int,
    fee_lo: int,
    fee_hi: int,
)
    requires
        0 <= reserve_out,
        0 <= reserve_in,
        0 <= amount,
        0 <= fee_lo <= fee_hi <= FEE_DENOM,
    ensures
        amount_out_spec(reserve_out, apply_fee_spec(amount, fee_hi), reserve_in)
            <= amount_out_spec(reserve_out, apply_fee_spec(amount, fee_lo), reserve_in),
{
    lemma_apply_fee_antitone(amount, fee_lo, fee_hi);
    lemma_fee_split_bounds(amount, fee_hi);
    lemma_amount_out_monotone(
        reserve_out,
        apply_fee_spec(amount, fee_hi),
        apply_fee_spec(amount, fee_lo),
        reserve_in,
    );
}

/// `a * b / c` at full precision, rounded down; `a <= c` keeps the result
/// within `b`, so it fits the word it is cast back to.
pub fn mul_div(a: u64, b: u64, c: u64) -> (r: u64)
    requires
        0 < c,
        a <= c,
    ensures
        r == a as int * b as int / c as int,
        r <= b,
{
    proof {
        lemma_mul_upper_bound(a as int, u64::MAX as int, b as int, u64::MAX as int);
        lemma_mul_div_le(a as int, b as int, c as int);
    }
    let prod: u128 = (a as u128) * (b as u128);
    let q: u128 = prod / (c as u128);
    q as u64
}

/// The net amount once the platform fee is taken off the user's input.
pub fn apply_fee(amount: u64, fee: u64) -> (r: u64)
    requires
        fee <= FEE_DENOM,
    ensures
        r == apply_fee_spec(amount as int, fee as int),
        r <= amount,
{
    proof {
        lemma_mul_upper_bound(amount as int, u64::MAX as int, (FEE_DENOM - fee) as int,
            FEE_DENOM as int);
        lemma_mul_is_commutative(amount as int, (FEE_DENOM - fee) as int);
        lemma_mul_div_le((FEE_DENOM - fee) as int, amount as int, FEE_DENOM as int);
    }
    let prod: u128 = (amount as u128) * ((FEE_DENOM - fee) as u128);
    let q: u128 = prod / (FEE_DENOM as u128);
    q as u64
}

/// The fee's share of `amount`, rounded down.
pub fn fee_portion(amount: u64, fee: u64) -> (r: u64)
    requires
        fee <= FEE_DENOM,
    ensures
        r == fee_portion_spec(amount as int, fee as int),
        r <= amount,
{
    proof {
        lemma_mul_upper_bound(amount as int, u64::MAX as int, fee as int, FEE_DENOM as int);
        lemma_mul_is_commutative(amount as int, fee as int);
        lemma_mul_div_le(fee as int, amount as int, FEE_DENOM as int);
    }
    let prod: u128 = (amount as u128) * (fee as u128);
    let q: u128 = prod / (FEE_DENOM as u128);
    q as u64
}

/// The constant-product payout for a net input of `adjusted` against the
/// reserve pair, computed at full precision and rounded down.
pub fn constant_product_out(reserve_out: u64, adjusted: u64, reserve_in: u64) -> (r: u64)
    requires
        reserve_in + adjusted <= u64::MAX,
    ensures
        r == amount_out_spec(reserve_out as int, adjusted as int, reserve_in as int),
        r <= reserve_out,
{
    let denominator_sum = reserve_in + adjusted;
    if denominator_sum == 0 {
        0
    } else {
        proof {
            lemma_mul_is_commutative(adjusted as int, reserve_out as int);
        }
        mul_div(adjusted, reserve_out, denominator_sum)
    }
}

} // verus!
