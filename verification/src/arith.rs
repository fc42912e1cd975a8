//! Bounded integer arithmetic.

use vstd::prelude::*;

verus! {

/// `a * b`, or `limit` where the product is larger.
pub open spec fn saturating_product(a: nat, b: nat, limit: nat) -> nat {
    if a * b > limit {
        limit
    } else {
        a * b
    }
}

/// `a / b` rounded up.
pub open spec fn ceil_div(a: nat, b: nat) -> nat {
    if a % b == 0 {
        a / b
    } else {
        a / b + 1
    }
}

/// The larger of two numbers.
pub open spec fn larger(a: nat, b: nat) -> nat {
    if a >= b {
        a
    } else {
        b
    }
}

/// The smaller of two numbers.
pub open spec fn smaller(a: nat, b: nat) -> nat {
    if a <= b {
        a
    } else {
        b
    }
}

/// Product that stops at `usize::MAX`.
pub fn saturating_mul(a: usize, b: usize) -> (p: usize)
    ensures
        p == saturating_product(a as nat, b as nat, usize::MAX as nat),
{
    match a.checked_mul(b) {
        Some(p) => p,
        None => usize::MAX,
    }
}

/// Product that stops at `u64::MAX`.
pub fn saturating_mul_u64(a: u64, b: u64) -> (p: u64)
    ensures
        p == saturating_product(a as nat, b as nat, u64::MAX as nat),
{
    match a.checked_mul(b) {
        Some(p) => p,
        None => u64::MAX,
    }
}

/// Quotient rounded up.
pub fn div_ceil(a: usize, b: usize) -> (q: usize)
    requires
        b > 0,
    ensures
        q == ceil_div(a as nat, b as nat),
        q <= a,
{
    proof {
        assert(a / b <= a && (a % b != 0 ==> a / b < a)) by (nonlinear_arith)
            requires
                b > 0,
        ;
    }
    if a % b == 0 {
        a / b
    } else {
        a / b + 1
    }
}

/// The larger of two numbers.
pub fn max(a: usize, b: usize) -> (m: usize)
    ensures
        m == larger(a as nat, b as nat),
{
    if a >= b {
        a
    } else {
        b
    }
}

/// The smaller of two numbers.
pub fn min(a: usize, b: usize) -> (m: usize)
    ensures
        m == smaller(a as nat, b as nat),
{
    if a <= b {
        a
    } else {
        b
    }
}

/// A quotient that is rounded up is the first number of parts that covers the whole.
pub proof fn law_quotients_rounded_up_cover_the_whole(a: nat, b: nat)
    requires
        b > 0,
    ensures
        ceil_div(a, b) * b >= a,
        a > 0 ==> (ceil_div(a, b) - 1) * b < a,
        a == 0 ==> ceil_div(a, b) == 0,
{
    let q = a / b;
    vstd::arithmetic::div_mod::lemma_fundamental_div_mod(a as int, b as int);
    assert(b * q == q * b) by (nonlinear_arith);
    assert((q + 1) * b == q * b + b) by (nonlinear_arith);
    assert((q - 1) * b == q * b - b) by (nonlinear_arith);
}

/// The larger and the smaller of two numbers are the two numbers, and a product
/// that stops at a limit is the product wherever the limit allows it.
pub proof fn law_bounds_are_reached(a: nat, b: nat, limit: nat)
    ensures
        larger(a, b) >= a && larger(a, b) >= b,
        smaller(a, b) <= a && smaller(a, b) <= b,
        larger(a, b) + smaller(a, b) == a + b,
        saturating_product(a, b, limit) <= limit,
        a * b <= limit ==> saturating_product(a, b, limit) == a * b,
        a * b > limit ==> saturating_product(a, b, limit) == limit,
{
}

} // verus!
