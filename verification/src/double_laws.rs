//! What rounding promises: the nearest number there is, and no other.

use vstd::arithmetic::power::pow;
use vstd::arithmetic::power2::{lemma_pow2_pos, lemma_pow2_unfold, pow2};
use vstd::prelude::*;

use crate::double::{
    ceiling, fixed_text, integer, nearest, nearest_above, nearest_below, product, quotient,
    ratio, round_half_even, rounded, Binary, MANTISSA_END, MANTISSA_MIN,
};
use crate::text::{decimal, padded_decimal};

verus! {

/// The distance between two numbers.
pub open spec fn apart(a: int, b: int) -> int {
    if a <= b {
        b - a
    } else {
        a - b
    }
}

/// A quotient is rounded to an integer that is no further away than half, and to an
/// even one where two are as near.
pub proof fn law_quotients_are_rounded_to_the_nearest(n: nat, d: nat)
    requires
        d > 0,
    ensures
        2 * apart((round_half_even(n, d) * d) as int, n as int) <= d,
        2 * apart((round_half_even(n, d) * d) as int, n as int) == d ==> round_half_even(n, d) % 2
            == 0,
{
    let q = n / d;
    let r = n % d;
    vstd::arithmetic::div_mod::lemma_fundamental_div_mod(n as int, d as int);
    assert(d * q == q * d) by (nonlinear_arith);
    assert((q + 1) * d == q * d + d) by (nonlinear_arith);
}

proof fn lemma_nearest_above(n: nat, d: nat, exponent: int)
    requires
        0 < n < MANTISSA_END * d,
        d > 0,
    ensures
        ({
            let b = nearest_above(n, d, exponent);
            &&& b.exponent <= exponent
            &&& MANTISSA_MIN <= b.mantissa <= MANTISSA_END
            &&& 2 * apart(
                (b.mantissa * d) as int,
                (n * pow2((exponent - b.exponent) as nat)) as int,
            ) <= d
        }),
    decreases MANTISSA_END * d - n,
{
    if n >= MANTISSA_MIN * d {
        vstd::arithmetic::power2::lemma2_to64();
        law_quotients_are_rounded_to_the_nearest(n, d);
        let m = round_half_even(n, d) as int;
        let k = d as int;
        let lo = MANTISSA_MIN as int;
        let hi = MANTISSA_END as int;
        assert(lo <= m) by (nonlinear_arith)
            requires
                2 * (lo * k - m * k) <= k,
                k > 0,
        ;
        assert(m <= hi) by (nonlinear_arith)
            requires
                2 * (m * k - hi * k) <= k,
                k > 0,
        ;
        assert(n * pow2(0) == n);
    } else {
        assert(2 * n < MANTISSA_END * d);
        lemma_nearest_above(2 * n, d, exponent - 1);
        let b = nearest_above(2 * n, d, exponent - 1);
        let s = (exponent - 1 - b.exponent) as nat;
        lemma_pow2_unfold(s + 1);
        assert((2 * n) * pow2(s) == n * pow2(s + 1)) by (nonlinear_arith)
            requires
                pow2(s + 1) == 2 * pow2(s),
        ;
    }
}

proof fn lemma_nearest_below(n: nat, d: nat, exponent: int)
    requires
        n >= MANTISSA_MIN * d,
        d > 0,
    ensures
        ({
            let b = nearest_below(n, d, exponent);
            &&& b.exponent >= exponent
            &&& MANTISSA_MIN <= b.mantissa <= MANTISSA_END
            &&& 2 * apart(
                (b.mantissa * (d * pow2((b.exponent - exponent) as nat))) as int,
                n as int,
            ) <= d * pow2((b.exponent - exponent) as nat)
        }),
    decreases n - d,
{
    if n < MANTISSA_END * d {
        vstd::arithmetic::power2::lemma2_to64();
        law_quotients_are_rounded_to_the_nearest(n, d);
        let m = round_half_even(n, d) as int;
        let k = d as int;
        let lo = MANTISSA_MIN as int;
        let hi = MANTISSA_END as int;
        assert(lo <= m) by (nonlinear_arith)
            requires
                2 * (lo * k - m * k) <= k,
                k > 0,
        ;
        assert(m <= hi) by (nonlinear_arith)
            requires
                2 * (m * k - hi * k) <= k,
                k > 0,
        ;
        assert(d * pow2(0) == d);
    } else {
        lemma_nearest_below(n, 2 * d, exponent + 1);
        let b = nearest_below(n, 2 * d, exponent + 1);
        let s = (b.exponent - exponent - 1) as nat;
        lemma_pow2_unfold(s + 1);
        assert((2 * d) * pow2(s) == d * pow2(s + 1)) by (nonlinear_arith)
            requires
                pow2(s + 1) == 2 * pow2(s),
        ;
    }
}

/// A quotient of integers, times a power of two, becomes the nearest double: its
/// mantissa has all bits that a double has, and its value is no further away than
/// half a unit of the last of them.
pub proof fn law_doubles_are_the_nearest(n: nat, d: nat, exponent: int)
    requires
        n > 0,
        d > 0,
    ensures
        ({
            let b = nearest(n, d, exponent);
            &&& MANTISSA_MIN <= b.mantissa <= MANTISSA_END
            &&& b.exponent <= exponent ==> 2 * apart(
                (b.mantissa * d) as int,
                (n * pow2((exponent - b.exponent) as nat)) as int,
            ) <= d
            &&& b.exponent >= exponent ==> 2 * apart(
                (b.mantissa * (d * pow2((b.exponent - exponent) as nat))) as int,
                n as int,
            ) <= d * pow2((b.exponent - exponent) as nat)
        }),
{
    vstd::arithmetic::power2::lemma2_to64();
    let b = nearest(n, d, exponent);
    if n < MANTISSA_MIN * d {
        assert(n < MANTISSA_END * d) by (nonlinear_arith)
            requires
                n < MANTISSA_MIN * d,
        ;
        lemma_nearest_above(n, d, exponent);
        if b.exponent == exponent {
            assert(n * pow2(0) == n);
            assert(d * pow2(0) == d);
        }
    } else {
        lemma_nearest_below(n, d, exponent);
        if b.exponent == exponent {
            assert(n * pow2(0) == n);
            assert(d * pow2(0) == d);
        }
    }
}

/// An integer that a mantissa can hold is its own double, and nothing over anything
/// is zero.
pub proof fn law_small_integers_are_exact(n: nat, d: nat)
    requires
        0 < n < MANTISSA_END,
    ensures
        ({
            let b = integer(n);
            b.exponent <= 0 && b.mantissa == n * pow2((-b.exponent) as nat)
        }),
        integer(0).mantissa == 0,
        ratio(n, 0).mantissa == 0,
        ratio(0, d).mantissa == 0,
{
    lemma_exact(n, 0);
}

proof fn lemma_exact(n: nat, exponent: int)
    requires
        0 < n < MANTISSA_END,
    ensures
        ({
            let b = nearest(n, 1, exponent);
            b.exponent <= exponent && b.mantissa == n * pow2((exponent - b.exponent) as nat)
        }),
    decreases MANTISSA_END - n,
{
    vstd::arithmetic::power2::lemma2_to64();
    if n >= MANTISSA_MIN {
        assert(round_half_even(n, 1) == n);
        assert(n * pow2(0) == n);
    } else {
        lemma_exact(2 * n, exponent - 1);
        let b = nearest(2 * n, 1, exponent - 1);
        assert(nearest(n, 1, exponent) == b) by {
            assert(nearest_above(n, 1, exponent) == nearest_above(2 * n, 1, exponent - 1));
            if 2 * n >= MANTISSA_MIN {
                assert(round_half_even(2 * n, 1) == 2 * n);
                assert(nearest_above(2 * n, 1, exponent - 1) == nearest_below(
                    2 * n,
                    1,
                    exponent - 1,
                ));
            }
        }
        let s = (exponent - 1 - b.exponent) as nat;
        lemma_pow2_unfold(s + 1);
        assert((2 * n) * pow2(s) == n * pow2(s + 1)) by (nonlinear_arith)
            requires
                pow2(s + 1) == 2 * pow2(s),
        ;
    }
}

/// A double with a fraction is rounded to the nearest integer, upwards from the
/// half on, and its ceiling is the first integer that is not below it; both stop at
/// the largest that can be counted.
pub proof fn law_integers_near_a_double(a: Binary)
    requires
        a.exponent < 0,
    ensures
        ({
            let d = pow2((-a.exponent) as nat);
            &&& rounded(a) < u64::MAX ==> {
                &&& 2 * a.mantissa < (2 * rounded(a) + 1) * d
                &&& (2 * rounded(a) - 1) * d <= 2 * a.mantissa
            }
            &&& ceiling(a) < u64::MAX ==> {
                &&& a.mantissa <= ceiling(a) * d
                &&& (ceiling(a) - 1) * d < a.mantissa
            }
            &&& rounded(a) <= ceiling(a)
        }),
{
    let d = pow2((-a.exponent) as nat);
    lemma_pow2_pos((-a.exponent) as nat);
    let m = a.mantissa as int;
    let k = d as int;
    let r = (2 * m + k) / (2 * k);
    let c = (m + k - 1) / k;
    vstd::arithmetic::div_mod::lemma_fundamental_div_mod(2 * m + k, 2 * k);
    vstd::arithmetic::div_mod::lemma_fundamental_div_mod(m + k - 1, k);
    vstd::arithmetic::div_mod::lemma_mod_bound(2 * m + k, 2 * k);
    vstd::arithmetic::div_mod::lemma_mod_bound(m + k - 1, k);
    assert((2 * r + 1) * k == 2 * k * r + k) by (nonlinear_arith);
    assert((2 * r - 1) * k == 2 * k * r - k) by (nonlinear_arith);
    assert(c * k == k * c) by (nonlinear_arith);
    assert((c - 1) * k == k * c - k) by (nonlinear_arith);
    assert(r <= c) by (nonlinear_arith)
        requires
            (2 * r - 1) * k <= 2 * m,
            m <= c * k,
            k > 0,
    ;
    assert(r >= 0 && c >= 0) by (nonlinear_arith)
        requires
            2 * m < (2 * r + 1) * k,
            m <= c * k,
            m >= 0,
            k > 0,
    ;
}

/// A text with places after the point writes the number of that many places that is
/// nearest to the double: the whole part, the point, and the places, zeros in front
/// of them included.
pub proof fn law_fixed_texts_are_the_nearest(a: Binary, places: nat)
    ensures
        a.exponent >= 0 ==> fixed_text(a, places) == decimal(
            a.mantissa * pow2(a.exponent as nat),
        ) + "."@ + padded_decimal(0, places),
        a.exponent < 0 ==> exists|k: nat|
            fixed_text(a, places) == decimal(#[trigger] whole_part(k, places)) + "."@
                + padded_decimal(k % pow(10, places) as nat, places) && 2 * apart(
                (k * pow2((-a.exponent) as nat)) as int,
                a.mantissa * pow(10, places),
            ) <= pow2((-a.exponent) as nat),
{
    vstd::arithmetic::power::lemma_pow_positive(10, places);
    if a.exponent < 0 {
        let d = pow2((-a.exponent) as nat);
        lemma_pow2_pos((-a.exponent) as nat);
        let unit = pow(10, places) as nat;
        let k = round_half_even(a.mantissa * unit, d);
        law_quotients_are_rounded_to_the_nearest(a.mantissa * unit, d);
        assert(whole_part(k, places) == k / unit);
    }
}

/// The whole part of a number that is written with so many places.
pub open spec fn whole_part(k: nat, places: nat) -> nat {
    k / pow(10, places) as nat
}

/// The product of two doubles and their quotient become the nearest doubles: no
/// further away than half a unit of the last place.
pub proof fn law_products_and_quotients_are_the_nearest(a: Binary, b: Binary)
    requires
        a.mantissa > 0,
        b.mantissa > 0,
    ensures
        ({
            let p = product(a, b);
            let e = a.exponent + b.exponent;
            &&& p.exponent <= e ==> p.mantissa == a.mantissa * b.mantissa * pow2(
                (e - p.exponent) as nat,
            )
            &&& p.exponent >= e ==> 2 * apart(
                (p.mantissa * pow2((p.exponent - e) as nat)) as int,
                (a.mantissa * b.mantissa) as int,
            ) <= pow2((p.exponent - e) as nat)
        }),
        ({
            let q = quotient(a, b);
            let e = a.exponent - b.exponent;
            &&& q.exponent <= e ==> 2 * apart(
                (q.mantissa * b.mantissa) as int,
                (a.mantissa * pow2((e - q.exponent) as nat)) as int,
            ) <= b.mantissa
            &&& q.exponent >= e ==> 2 * apart(
                (q.mantissa * (b.mantissa * pow2((q.exponent - e) as nat))) as int,
                a.mantissa as int,
            ) <= b.mantissa * pow2((q.exponent - e) as nat)
        }),
{
    let n = a.mantissa * b.mantissa;
    assert(n > 0) by (nonlinear_arith)
        requires
            n == a.mantissa * b.mantissa,
            a.mantissa > 0,
            b.mantissa > 0,
    ;
    law_doubles_are_the_nearest(n, 1, a.exponent + b.exponent);
    law_doubles_are_the_nearest(a.mantissa, b.mantissa, a.exponent - b.exponent);
    let p = product(a, b);
    let e = a.exponent + b.exponent;
    assert(p.mantissa * 1 == p.mantissa);
    if p.exponent >= e {
        assert(1 * pow2((p.exponent - e) as nat) == pow2((p.exponent - e) as nat));
    }
}

/// A rate becomes the double nearest to its part over its whole: times the whole it
/// is no further from the part than half a unit of its last place.
pub proof fn law_rates_are_the_nearest(part: nat, whole: nat)
    requires
        0 < part < MANTISSA_END,
        0 < whole < MANTISSA_END,
    ensures
        ({
            let r = ratio(part, whole);
            r.exponent <= 0 ==> 2 * apart(
                (r.mantissa * whole) as int,
                (part * pow2((-r.exponent) as nat)) as int,
            ) <= whole
        }),
{
    law_small_integers_are_exact(part, whole);
    law_small_integers_are_exact(whole, part);
    let a = integer(part);
    let b = integer(whole);
    let s = (-a.exponent) as nat;
    let t = (-b.exponent) as nat;
    lemma_pow2_pos(s);
    lemma_pow2_pos(t);
    assert(a.mantissa > 0) by (nonlinear_arith)
        requires
            a.mantissa == part * pow2(s),
            part > 0,
            pow2(s) > 0,
    ;
    assert(b.mantissa > 0) by (nonlinear_arith)
        requires
            b.mantissa == whole * pow2(t),
            whole > 0,
            pow2(t) > 0,
    ;
    law_products_and_quotients_are_the_nearest(a, b);
    let r = ratio(part, whole);
    let e = a.exponent - b.exponent;
    if r.exponent <= 0 {
        let u = (-r.exponent) as nat;
        let m = r.mantissa as int;
        let w = whole as int;
        let n = part as int;
        if r.exponent <= e {
            let k = (e - r.exponent) as nat;
            vstd::arithmetic::power2::lemma_pow2_adds(s, k);
            vstd::arithmetic::power2::lemma_pow2_adds(t, u);
            assert(s + k == t + u);
            lemma_common_unit(m * w, n * pow2(u), pow2(t) as int, w);
            assert(m * (w * pow2(t)) == (m * w) * pow2(t)) by (nonlinear_arith);
            assert((n * pow2(s)) * pow2(k) == n * (pow2(s) * pow2(k))) by (nonlinear_arith);
            assert((n * pow2(u)) * pow2(t) == n * (pow2(t) * pow2(u))) by (nonlinear_arith);
        } else {
            let k = (r.exponent - e) as nat;
            let v = (s - u) as nat;
            assert(t + k == v);
            vstd::arithmetic::power2::lemma_pow2_adds(t, k);
            vstd::arithmetic::power2::lemma_pow2_adds(u, v);
            lemma_pow2_pos(v);
            lemma_common_unit(m * w, n * pow2(u), pow2(v) as int, w);
            assert((w * pow2(t)) * pow2(k) == w * (pow2(t) * pow2(k))) by (nonlinear_arith);
            assert(m * (w * pow2(v)) == (m * w) * pow2(v)) by (nonlinear_arith);
            assert((n * pow2(u)) * pow2(v) == n * (pow2(u) * pow2(v))) by (nonlinear_arith);
        }
    }
}

proof fn lemma_common_unit(x: int, y: int, unit: int, limit: int)
    requires
        unit > 0,
    ensures
        2 * apart(x * unit, y * unit) <= limit * unit ==> 2 * apart(x, y) <= limit,
{
    let z = apart(x, y);
    assert(apart(x * unit, y * unit) == z * unit) by (nonlinear_arith)
        requires
            unit > 0,
            z == (if x >= y { x - y } else { y - x }),
            apart(x * unit, y * unit) == (if x * unit >= y * unit {
                x * unit - y * unit
            } else {
                y * unit - x * unit
            }),
    ;
    if 2 * (z * unit) <= limit * unit {
        assert(2 * z <= limit) by (nonlinear_arith)
            requires
                2 * (z * unit) <= limit * unit,
                unit > 0,
        ;
    }
}

} // verus!
