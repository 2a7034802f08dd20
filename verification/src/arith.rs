//! Facts about floor division used by the share computation.

use vstd::prelude::*;
use vstd::arithmetic::div_mod::lemma_div_is_ordered;
use vstd::arithmetic::div_mod::lemma_div_multiples_vanish;
use vstd::arithmetic::div_mod::lemma_div_pos_is_pos;
use vstd::arithmetic::div_mod::lemma_fundamental_div_mod;
use vstd::arithmetic::div_mod::lemma_hoist_over_denominator;
use vstd::arithmetic::div_mod::lemma_mod_bound;
use vstd::arithmetic::div_mod::lemma_multiply_divide_le;
use vstd::arithmetic::mul::lemma_mul_inequality;
use vstd::arithmetic::mul::lemma_mul_is_commutative;
use vstd::arithmetic::mul::lemma_mul_is_distributive_add;
use vstd::arithmetic::mul::lemma_mul_nonnegative;

verus! {

/// Summing two floored quotients never exceeds the floored quotient of the
/// summed numerators.
pub proof fn lemma_floor_sum(a: int, b: int, d: int)
    requires
        a >= 0,
        b >= 0,
        d > 0,
    ensures
        a / d + b / d <= (a + b) / d,
{
    let qa = a / d;
    let qb = b / d;
    let ra = a % d;
    let rb = b % d;
    lemma_fundamental_div_mod(a, d);
    lemma_fundamental_div_mod(b, d);
    lemma_mod_bound(a, d);
    lemma_mod_bound(b, d);
    lemma_hoist_over_denominator(ra + rb, qa + qb, d as nat);
    lemma_mul_is_commutative(qa + qb, d);
    lemma_mul_is_distributive_add(d, qa, qb);
    assert(ra + rb + (qa + qb) * d == a + b);
    lemma_div_pos_is_pos(ra + rb, d);
}

/// A floored proportion of a nonnegative amount is never negative.
pub proof fn lemma_proportion_nonneg(amount: int, weight: int, total: int)
    requires
        amount >= 0,
        weight >= 0,
        total > 0,
    ensures
        (amount * weight) / total >= 0,
{
    lemma_mul_nonnegative(amount, weight);
    lemma_div_pos_is_pos(amount * weight, total);
}

/// A floored proportion of `amount` with a weight at most the total lies
/// between zero and `amount`.
pub proof fn lemma_proportion_in_range(amount: int, weight: int, total: int)
    requires
        amount >= 0,
        0 <= weight <= total,
        total > 0,
    ensures
        0 <= (amount * weight) / total <= amount,
{
    lemma_mul_nonnegative(amount, weight);
    lemma_div_pos_is_pos(amount * weight, total);
    lemma_mul_inequality(weight, total, amount);
    assert(amount * weight <= total * amount);
    lemma_multiply_divide_le(amount * weight, total, amount);
}

} // verus!
