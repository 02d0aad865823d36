use vstd::arithmetic::div_mod::{
    lemma_div_is_ordered, lemma_div_multiples_vanish, lemma_div_pos_is_pos,
    lemma_fundamental_div_mod,
};
use vstd::arithmetic::mul::lemma_mul_inequality;
use vstd::prelude::*;

use crate::errors::ErrorCode;

verus! {

/// Swap output of the constant-product curve: a deposit of `d` into the side
/// holding reserve `ra` buys `rb - (ra*rb)/(ra+d)` units out of the opposite
/// reserve `rb`, rounded toward zero.
pub open spec fn swap_out(ra: int, rb: int, d: int) -> int
    recommends
        ra + d > 0,
{
    rb - (ra * rb) / (ra + d)
}

/// The constant-product invariant: the exact product of the two reserves.
pub open spec fn product_k(ra: int, rb: int) -> int {
    ra * rb
}

/// The swap output lies between zero and the opposite reserve.
pub proof fn lemma_swap_out_bounds(ra: int, rb: int, d: int)
    requires
        0 <= ra,
        0 <= rb,
        0 <= d,
        0 < ra + d,
    ensures
        0 <= swap_out(ra, rb, d) <= rb,
{
    let q = (ra * rb) / (ra + d);
    lemma_mul_inequality(ra, ra + d, rb);
    lemma_div_multiples_vanish(rb, ra + d);
    assert((ra + d) * rb == rb * (ra + d)) by (nonlinear_arith);
    lemma_div_is_ordered(ra * rb, (ra + d) * rb, ra + d);
    assert(q <= rb);
    assert(0 <= ra * rb) by (nonlinear_arith)
        requires
            0 <= ra,
            0 <= rb,
    ;
    lemma_div_pos_is_pos(ra * rb, ra + d);
}

/// Growing the deposited side's reserve never grows the swap output: the
/// later a side is joined, the fewer shares one unit of value buys.
pub proof fn lemma_swap_out_monotonic(ra1: int, ra2: int, rb: int, d: int)
    requires
        0 <= ra1 <= ra2,
        0 <= rb,
        0 < d,
    ensures
        swap_out(ra2, rb, d) <= swap_out(ra1, rb, d),
{
    let q1 = (ra1 * rb) / (ra1 + d);
    lemma_swap_out_bounds(ra1, rb, d);
    assert(q1 <= rb);
    lemma_div_pos_is_pos(ra1 * rb, ra1 + d);
    lemma_fundamental_div_mod(ra1 * rb, ra1 + d);
    assert((ra1 + d) * q1 <= ra1 * rb);
    assert(q1 * (ra2 + d) <= ra2 * rb) by (nonlinear_arith)
        requires
            (ra1 + d) * q1 <= ra1 * rb,
            0 <= q1 <= rb,
            0 <= ra1 <= ra2,
            0 <= rb,
            0 < d,
    ;
    lemma_div_multiples_vanish(q1, ra2 + d);
    assert((ra2 + d) * q1 == q1 * (ra2 + d)) by (nonlinear_arith);
    lemma_div_is_ordered(q1 * (ra2 + d), ra2 * rb, ra2 + d);
    assert(q1 <= (ra2 * rb) / (ra2 + d));
}

/// The product of two 64-bit reserves: the curve's invariant `k`.
pub fn k_from_xy(x: u64, y: u64) -> (r: u128)
    ensures
        r as int == product_k(x as int, y as int),
{
    proof {
        lemma_mul_inequality(x as int, u64::MAX as int, y as int);
        lemma_mul_inequality(y as int, u64::MAX as int, u64::MAX as int);
        assert((u64::MAX as int) * (u64::MAX as int) < u128::MAX as int) by (nonlinear_arith);
    }
    (x as u128) * (y as u128)
}

/// Shares minted for a deposit of `d` into side A at reserves `(ra, rb)`.
///
/// The division is only undefined when both the reserve and the deposit are
/// zero; every other input yields the exact curve output.
pub fn shares_for_deposit_into_a(ra: u64, rb: u64, d: u64) -> (r: Result<u64, ErrorCode>)
    ensures
        match r {
            Ok(out) => ra + d > 0 && out as int == swap_out(ra as int, rb as int, d as int),
            Err(e) => ra == 0 && d == 0 && e == ErrorCode::DivisionByZero,
        },
{
    if ra == 0 && d == 0 {
        return Err(ErrorCode::DivisionByZero);
    }
    proof {
        lemma_mul_inequality(ra as int, u64::MAX as int, rb as int);
        lemma_mul_inequality(rb as int, u64::MAX as int, u64::MAX as int);
        assert((u64::MAX as int) * (u64::MAX as int) < u128::MAX as int) by (nonlinear_arith);
        lemma_swap_out_bounds(ra as int, rb as int, d as int);
    }
    let num: u128 = (ra as u128) * (rb as u128);
    let den: u128 = (ra as u128) + (d as u128);
    let q: u128 = num / den;
    assert(q <= rb as u128);
    Ok((rb as u128 - q) as u64)
}

/// Shares minted for a deposit of `d` into side B at reserves `(ra, rb)`:
/// the mirror image of the side-A case.
pub fn shares_for_deposit_into_b(ra: u64, rb: u64, d: u64) -> (r: Result<u64, ErrorCode>)
    ensures
        match r {
            Ok(out) => rb + d > 0 && out as int == swap_out(rb as int, ra as int, d as int),
            Err(e) => rb == 0 && d == 0 && e == ErrorCode::DivisionByZero,
        },
{
    shares_for_deposit_into_a(rb, ra, d)
}

/// The deposited side's reserve after a deposit: it simply grows by the
/// deposit amount, failing only when that leaves the 64-bit range.
pub fn updated_reserve_after_deposit(ra: u64, d: u64) -> (r: Result<u64, ErrorCode>)
    ensures
        match r {
            Ok(nr) => ra + d <= u64::MAX && nr == ra + d,
            Err(e) => ra + d > u64::MAX && e == ErrorCode::Overflow,
        },
{
    match ra.checked_add(d) {
        Some(nr) => Ok(nr),
        None => Err(ErrorCode::Overflow),
    }
}

} // verus!
