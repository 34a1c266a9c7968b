use vstd::prelude::*;

use vstd::arithmetic::div_mod::lemma_div_is_ordered;
use vstd::arithmetic::div_mod::lemma_div_is_ordered_by_denominator;
use vstd::arithmetic::div_mod::lemma_div_multiples_vanish;
use vstd::arithmetic::div_mod::lemma_fundamental_div_mod;
use vstd::arithmetic::div_mod::lemma_mod_division_less_than_divisor;
use vstd::arithmetic::mul::lemma_mul_inequality;
use vstd::arithmetic::mul::lemma_mul_nonnegative;
use vstd::arithmetic::div_mod::lemma_multiply_divide_le;

verus! {

/// The total amount a depositor who has committed `deposited` tokens is owed
/// to date from a distribution funded with `funded` tokens, under a
/// collection cap of `cap`: the floor of `deposited * funded / cap`. The
/// fixed cap, not the amount collected so far, is the denominator, so a claim
/// computed at any time stays correct as further depositors join. Truncating
/// the division is what keeps the sum of all entitlements within `funded`.
pub open spec fn entitlement(deposited: u64, funded: u64, cap: u64) -> int
    recommends
        0 < cap,
{
    (deposited * funded) / (cap as int)
}

/// An entitlement is never negative and, as long as the depositor's share
/// does not exceed the cap, never more than the distribution's funding.
pub proof fn lemma_entitlement_bounds(deposited: u64, funded: u64, cap: u64)
    requires
        0 < cap,
        deposited <= cap,
    ensures
        0 <= entitlement(deposited, funded, cap) <= funded,
{
    lemma_mul_nonnegative(deposited as int, funded as int);
    vstd::arithmetic::div_mod::lemma_div_pos_is_pos(deposited * funded, cap as int);
    lemma_mul_inequality(deposited as int, cap as int, funded as int);
    lemma_multiply_divide_le(deposited * funded, cap as int, funded as int);
}

/// Entitlements only grow as a distribution is funded: with the deposit and
/// cap fixed, more funding never lowers what a depositor is owed.
pub proof fn lemma_entitlement_monotone(deposited: u64, funded1: u64, funded2: u64, cap: u64)
    requires
        0 < cap,
        funded1 <= funded2,
    ensures
        entitlement(deposited, funded1, cap) <= entitlement(deposited, funded2, cap),
{
    lemma_mul_inequality(funded1 as int, funded2 as int, deposited as int);
    assert(deposited * funded1 <= deposited * funded2) by {
        vstd::arithmetic::mul::lemma_mul_is_commutative(funded1 as int, deposited as int);
        vstd::arithmetic::mul::lemma_mul_is_commutative(funded2 as int, deposited as int);
    }
    lemma_div_is_ordered(deposited * funded1, deposited * funded2, cap as int);
}

/// Entitlements only grow as a depositor commits more: with the funding and
/// cap fixed, a larger deposit never lowers what the depositor is owed.
pub proof fn lemma_entitlement_monotone_deposit(
    deposited1: u64,
    deposited2: u64,
    funded: u64,
    cap: u64,
)
    requires
        0 < cap,
        deposited1 <= deposited2,
    ensures
        entitlement(deposited1, funded, cap) <= entitlement(deposited2, funded, cap),
{
    lemma_mul_inequality(deposited1 as int, deposited2 as int, funded as int);
    lemma_div_is_ordered(deposited1 * funded, deposited2 * funded, cap as int);
}

/// Entitlements only grow as the cap is lowered: shrinking the fixed
/// denominator raises every depositor's fraction of the same funding. This
/// is why lowering the cap is safe for depositors and why it releases
/// otherwise unclaimable funding.
pub proof fn lemma_entitlement_antitone_cap(deposited: u64, funded: u64, cap1: u64, cap2: u64)
    requires
        0 < cap2 <= cap1,
    ensures
        entitlement(deposited, funded, cap1) <= entitlement(deposited, funded, cap2),
{
    lemma_mul_nonnegative(deposited as int, funded as int);
    lemma_div_is_ordered_by_denominator(deposited * funded, cap2 as int, cap1 as int);
}

/// Floors lose at most the remainders: dividing two non-negative numerators
/// separately never beats dividing their sum.
pub proof fn lemma_div_of_sum_bound(x: int, y: int, d: int)
    requires
        0 <= x,
        0 <= y,
        0 < d,
    ensures
        x / d + y / d <= (x + y) / d,
{
    lemma_fundamental_div_mod(x, d);
    lemma_fundamental_div_mod(y, d);
    lemma_mod_division_less_than_divisor(x, d);
    lemma_mod_division_less_than_divisor(y, d);
    let q = x / d + y / d;
    assert(d * q == d * (x / d) + d * (y / d)) by {
        vstd::arithmetic::mul::lemma_mul_is_distributive_add(d, x / d, y / d);
    }
    assert(d * q <= x + y);
    lemma_div_is_ordered(d * q, x + y, d);
    lemma_div_multiples_vanish(q, d);
}

} // verus!
