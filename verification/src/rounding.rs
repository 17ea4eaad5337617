//! Fee calculation with banker's rounding (round half to even).
use vstd::prelude::*;

verus! {

/// Basis points in a whole.
pub const BPS_DENOMINATOR: u64 = 10_000;

/// `num / den` rounded to the nearest integer, ties to the even one.
pub open spec fn bankers_quotient(num: nat, den: nat) -> nat
    recommends
        den > 0,
{
    let q = num / den;
    let r = num % den;
    if 2 * r > den || (2 * r == den && q % 2 == 1) {
        q + 1
    } else {
        q
    }
}

/// The fee on `amount` at `fee_bps` basis points, banker's-rounded, at least
/// `min_fee`, and capped at the largest `u64`.
pub open spec fn fee_with_bankers_round(amount: nat, fee_bps: nat, min_fee: nat) -> nat {
    let rounded = bankers_quotient(amount * fee_bps, BPS_DENOMINATOR as nat);
    let fee = if rounded >= min_fee { rounded } else { min_fee };
    if fee > u64::MAX { u64::MAX as nat } else { fee }
}

/// The fee on `amount` (in the smallest unit) at `fee_bps` basis points,
/// rounded half to even, and never below `min_fee`.
pub fn calculate_fee_with_bankers_round(amount: u64, fee_bps: u64, min_fee: u64) -> (fee: u64)
    ensures
        fee == fee_with_bankers_round(amount as nat, fee_bps as nat, min_fee as nat),
        fee >= min_fee,
{
    let a: u128 = amount as u128;
    let b: u128 = fee_bps as u128;
    assert(a * b <= 0xffff_ffff_ffff_ffffu128 * 0xffff_ffff_ffff_ffffu128) by (nonlinear_arith)
        requires
            a <= 0xffff_ffff_ffff_ffffu128,
            b <= 0xffff_ffff_ffff_ffffu128,
    ;
    let num: u128 = a * b;
    let den: u128 = BPS_DENOMINATOR as u128;
    let q: u128 = num / den;
    let r: u128 = num % den;
    let rounded: u128 = if 2 * r > den || (2 * r == den && q % 2 == 1) { q + 1 } else { q };
    let fee: u128 = if rounded >= min_fee as u128 { rounded } else { min_fee as u128 };
    if fee > 0xffff_ffff_ffff_ffffu128 {
        0xffff_ffff_ffff_ffffu64
    } else {
        fee as u64
    }
}

/// An exact half rounds to the even neighbour.
pub proof fn law_half_rounds_to_even(k: nat, den: nat)
    requires
        den > 0,
        den % 2 == 0,
    ensures
        bankers_quotient(den * k + den / 2, den) % 2 == 0,
        bankers_quotient(den * k + den / 2, den) == k || bankers_quotient(den * k + den / 2, den) == k + 1,
{
    let num = den * k + den / 2;
    assert(num / den == k && num % den == den / 2) by {
        vstd::arithmetic::div_mod::lemma_fundamental_div_mod_converse(num as int, den as int, k as int, (den / 2) as int);
    }
}

/// The rounded quotient is within half a unit of the exact one.
pub proof fn law_rounding_error_at_most_half(num: nat, den: nat)
    requires
        den > 0,
    ensures
        ({
            let q = bankers_quotient(num, den);
            -(den as int) <= 2 * ((q * den) as int - num as int) <= den as int
        }),
{
    let q0 = num / den;
    let r = num % den;
    assert(num == den * q0 + r) by {
        vstd::arithmetic::div_mod::lemma_fundamental_div_mod(num as int, den as int);
    }
    assert((q0 + 1) * den == q0 * den + den) by (nonlinear_arith);
    assert(q0 * den == den * q0) by (nonlinear_arith);
}

} // verus!
