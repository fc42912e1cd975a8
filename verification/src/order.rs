//! The order of doubles: rounding, quotients, products and ceilings keep it.

use vstd::arithmetic::power2::pow2;
use vstd::prelude::*;

use crate::double::{ceiling, integer, nearest, product, quotient, ratio, round_half_even};
use crate::double::{rounded, times};
use crate::double::{lemma_rounded_mantissa, nearest_above, nearest_below};
use crate::double::{Binary, MANTISSA_END, MANTISSA_MIN};

verus! {

/// One number is no greater than the other.
pub open spec fn at_most(a: Binary, b: Binary) -> bool {
    if a.exponent >= b.exponent {
        a.mantissa * pow2((a.exponent - b.exponent) as nat) <= b.mantissa
    } else {
        a.mantissa <= b.mantissa * pow2((b.exponent - a.exponent) as nat)
    }
}

/// The number zero.
pub open spec fn zero() -> Binary {
    Binary { mantissa: 0, exponent: 0 }
}

/// The number one.
pub open spec fn one() -> Binary {
    integer(1)
}

/// A number between zero and one.
pub open spec fn in_unit(a: Binary) -> bool {
    at_most(zero(), a) && at_most(a, one())
}

/// `n1 / d1 * 2^e1` is no greater than `n2 / d2 * 2^e2`; no exponent is below
/// `lo`.
spec fn fraction_at_most(n1: nat, d1: nat, e1: int, n2: nat, d2: nat, e2: int, lo: int) -> bool {
    n1 * d2 * pow2((e1 - lo) as nat) <= n2 * d1 * pow2((e2 - lo) as nat)
}

/// How many doublings bring a quotient into the range of mantissas, at most.
spec fn distance(n: nat, d: nat) -> nat {
    if n == 0 {
        0
    } else if n < MANTISSA_MIN * d {
        (MANTISSA_END * d - n) as nat
    } else if n >= MANTISSA_END * d {
        (n - d) as nat
    } else {
        0
    }
}

proof fn lemma_pow2_plus(a: nat, b: nat)
    ensures
        pow2(a + b) == pow2(a) * pow2(b),
        pow2(a) > 0,
        pow2(b) > 0,
{
    vstd::arithmetic::power2::lemma_pow2_adds(a, b);
    vstd::arithmetic::power2::lemma_pow2_pos(a);
    vstd::arithmetic::power2::lemma_pow2_pos(b);
}

proof fn lemma_pow2_next(a: nat)
    ensures
        pow2(a + 1) == 2 * pow2(a),
        pow2(a) > 0,
{
    vstd::arithmetic::power2::lemma_pow2_unfold(a + 1);
    vstd::arithmetic::power2::lemma_pow2_pos(a);
}

/// The comparison does not depend on the common scale.
proof fn lemma_at_most_scaled(a: Binary, b: Binary, lo: int)
    requires
        lo <= a.exponent,
        lo <= b.exponent,
    ensures
        at_most(a, b) <==> a.mantissa * pow2((a.exponent - lo) as nat) <= b.mantissa * pow2(
            (b.exponent - lo) as nat,
        ),
{
    if a.exponent >= b.exponent {
        let k = (a.exponent - b.exponent) as nat;
        let s = (b.exponent - lo) as nat;
        lemma_pow2_plus(k, s);
        assert((a.exponent - lo) as nat == k + s);
        let (m, p, q, w) = (a.mantissa, pow2(k), pow2(s), b.mantissa);
        assert(m * (p * q) <= w * q <==> m * p <= w) by (nonlinear_arith)
            requires
                q > 0,
        ;
    } else {
        let k = (b.exponent - a.exponent) as nat;
        let s = (a.exponent - lo) as nat;
        lemma_pow2_plus(k, s);
        assert((b.exponent - lo) as nat == k + s);
        let (m, p, q, w) = (a.mantissa, pow2(k), pow2(s), b.mantissa);
        assert(m * q <= w * (p * q) <==> m <= w * p) by (nonlinear_arith)
            requires
                q > 0,
        ;
    }
}

/// The order is transitive.
pub proof fn law_at_most_transitive(a: Binary, b: Binary, c: Binary)
    requires
        at_most(a, b),
        at_most(b, c),
    ensures
        at_most(a, c),
{
    let low = if a.exponent <= b.exponent {
        a.exponent
    } else {
        b.exponent
    };
    let lo = if low <= c.exponent {
        low
    } else {
        c.exponent
    };
    lemma_at_most_scaled(a, b, lo);
    lemma_at_most_scaled(b, c, lo);
    lemma_at_most_scaled(a, c, lo);
}

/// Any two numbers can be compared.
pub proof fn law_at_most_total(a: Binary, b: Binary)
    ensures
        at_most(a, b) || at_most(b, a),
        at_most(a, a),
{
    let lo = if a.exponent <= b.exponent {
        a.exponent
    } else {
        b.exponent
    };
    lemma_at_most_scaled(a, b, lo);
    lemma_at_most_scaled(b, a, lo);
    lemma_at_most_scaled(a, a, lo);
}

proof fn lemma_zero_least(b: Binary)
    ensures
        at_most(zero(), b),
{
    let lo = if b.exponent <= 0 {
        b.exponent
    } else {
        0
    };
    lemma_at_most_scaled(zero(), b, lo);
    let (p, m, q) = (pow2((0 - lo) as nat), b.mantissa, pow2((b.exponent - lo) as nat));
    assert(0 * p <= m * q) by (nonlinear_arith);
}

proof fn lemma_round_monotone(n1: nat, d1: nat, n2: nat, d2: nat)
    requires
        d1 > 0,
        d2 > 0,
        n1 * d2 <= n2 * d1,
    ensures
        round_half_even(n1, d1) <= round_half_even(n2, d2),
{
    let (q1, r1) = ((n1 / d1) as int, (n1 % d1) as int);
    let (q2, r2) = ((n2 / d2) as int, (n2 % d2) as int);
    vstd::arithmetic::div_mod::lemma_fundamental_div_mod(n1 as int, d1 as int);
    vstd::arithmetic::div_mod::lemma_fundamental_div_mod(n2 as int, d2 as int);
    assert((q1 * d1 + r1) * d2 <= (q2 * d2 + r2) * d1) by (nonlinear_arith)
        requires
            n1 * d2 <= n2 * d1,
            n1 == d1 * q1 + r1,
            n2 == d2 * q2 + r2,
    ;
    assert(q1 <= q2) by (nonlinear_arith)
        requires
            (q1 * d1 + r1) * d2 <= (q2 * d2 + r2) * d1,
            0 <= r1,
            r2 < d2,
            d1 > 0,
            d2 > 0,
    ;
    if q1 == q2 {
        assert(r1 * d2 <= r2 * d1) by (nonlinear_arith)
            requires
                (q1 * d1 + r1) * d2 <= (q2 * d2 + r2) * d1,
                q1 == q2,
        ;
        if 2 * r1 > d1 {
            assert(2 * r2 > d2) by (nonlinear_arith)
                requires
                    2 * r1 > d1,
                    r1 * d2 <= r2 * d1,
                    d1 > 0,
                    d2 > 0,
            ;
        } else if 2 * r1 == d1 {
            assert(2 * r2 >= d2) by (nonlinear_arith)
                requires
                    2 * r1 == d1,
                    r1 * d2 <= r2 * d1,
                    d1 > 0,
                    d2 > 0,
            ;
        }
    }
}

/// Rounding takes `n / d` and `2n / 2d` to the same double.
proof fn lemma_nearest_step(n: nat, d: nat, e: int)
    requires
        d > 0,
        n > 0,
    ensures
        n < MANTISSA_MIN * d ==> nearest(n, d, e) == nearest(2 * n, d, e - 1),
        n >= MANTISSA_END * d ==> nearest(n, d, e) == nearest(n, 2 * d, e + 1),
        MANTISSA_MIN * d <= n < MANTISSA_END * d ==> nearest(n, d, e) == (Binary {
            mantissa: round_half_even(n, d),
            exponent: e,
        }),
{
    reveal_with_fuel(nearest_above, 2);
    if n < MANTISSA_MIN * d {
        if 2 * n >= MANTISSA_MIN * d {
            assert(2 * n < MANTISSA_END * d) by (nonlinear_arith)
                requires
                    n < MANTISSA_MIN * d,
            ;
        }
    } else if n >= MANTISSA_END * d {
        assert(n >= MANTISSA_MIN * (2 * d)) by (nonlinear_arith)
            requires
                n >= MANTISSA_END * d,
        ;
        assert(MANTISSA_MIN * d <= n) by (nonlinear_arith)
            requires
                n >= MANTISSA_END * d,
                d > 0,
        ;
        assert(nearest(n, d, e) == nearest_below(n, d, e));
    }
}

proof fn lemma_distance_step(n: nat, d: nat)
    requires
        d > 0,
        n > 0,
    ensures
        n < MANTISSA_MIN * d ==> distance(2 * n, d) < distance(n, d),
        n >= MANTISSA_END * d ==> distance(n, 2 * d) < distance(n, d),
{
    if n < MANTISSA_MIN * d {
        assert(2 * n < MANTISSA_END * d) by (nonlinear_arith)
            requires
                n < MANTISSA_MIN * d,
        ;
    }
    if n >= MANTISSA_END * d {
        assert(n >= MANTISSA_MIN * (2 * d) && n > d) by (nonlinear_arith)
            requires
                n >= MANTISSA_END * d,
                d > 0,
        ;
        assert(MANTISSA_MIN * d <= n) by (nonlinear_arith)
            requires
                n >= MANTISSA_END * d,
                d > 0,
        ;
    }
}

/// Rounding keeps the order of fractions.
proof fn lemma_nearest_monotone(n1: nat, d1: nat, e1: int, n2: nat, d2: nat, e2: int, lo: int)
    requires
        d1 > 0,
        d2 > 0,
        lo <= e1,
        lo <= e2,
        fraction_at_most(n1, d1, e1, n2, d2, e2, lo),
    ensures
        at_most(nearest(n1, d1, e1), nearest(n2, d2, e2)),
    decreases distance(n1, d1) + distance(n2, d2),
{
    let (p1, p2) = (pow2((e1 - lo) as nat), pow2((e2 - lo) as nat));
    lemma_pow2_next((e1 - lo) as nat);
    lemma_pow2_next((e2 - lo) as nat);
    assert((e1 - (lo - 1)) as nat == (e1 - lo) as nat + 1);
    assert((e2 - (lo - 1)) as nat == (e2 - lo) as nat + 1);
    if n1 == 0 {
        assert(nearest(n1, d1, e1) == zero());
        lemma_zero_least(nearest(n2, d2, e2));
    } else if n2 == 0 {
        assert(false) by (nonlinear_arith)
            requires
                n1 * d2 * p1 <= n2 * d1 * p2,
                n2 == 0,
                n1 > 0,
                d2 > 0,
                p1 > 0,
        ;
    } else {
        lemma_nearest_step(n1, d1, e1);
        lemma_nearest_step(n2, d2, e2);
        lemma_distance_step(n1, d1);
        lemma_distance_step(n2, d2);
        if n1 < MANTISSA_MIN * d1 {
            assert((2 * n1) * d2 * p1 <= n2 * d1 * (2 * p2)) by (nonlinear_arith)
                requires
                    n1 * d2 * p1 <= n2 * d1 * p2,
            ;
            assert(((e1 - 1) - (lo - 1)) as nat == (e1 - lo) as nat);
            lemma_nearest_monotone(2 * n1, d1, e1 - 1, n2, d2, e2, lo - 1);
        } else if n2 < MANTISSA_MIN * d2 {
            assert(n1 * d2 * (2 * p1) <= (2 * n2) * d1 * p2) by (nonlinear_arith)
                requires
                    n1 * d2 * p1 <= n2 * d1 * p2,
            ;
            assert(((e2 - 1) - (lo - 1)) as nat == (e2 - lo) as nat);
            lemma_nearest_monotone(n1, d1, e1, 2 * n2, d2, e2 - 1, lo - 1);
        } else if n1 >= MANTISSA_END * d1 {
            assert(n1 * d2 * (2 * p1) <= n2 * (2 * d1) * p2) by (nonlinear_arith)
                requires
                    n1 * d2 * p1 <= n2 * d1 * p2,
            ;
            assert(((e1 + 1) - lo) as nat == (e1 - lo) as nat + 1);
            lemma_nearest_monotone(n1, 2 * d1, e1 + 1, n2, d2, e2, lo);
        } else if n2 >= MANTISSA_END * d2 {
            assert(n1 * (2 * d2) * p1 <= n2 * d1 * (2 * p2)) by (nonlinear_arith)
                requires
                    n1 * d2 * p1 <= n2 * d1 * p2,
            ;
            assert(((e2 + 1) - lo) as nat == (e2 - lo) as nat + 1);
            lemma_nearest_monotone(n1, d1, e1, n2, 2 * d2, e2 + 1, lo);
        } else {
            lemma_normal_monotone(n1, d1, e1, n2, d2, e2, lo);
        }
    }
}

proof fn lemma_normal_monotone(n1: nat, d1: nat, e1: int, n2: nat, d2: nat, e2: int, lo: int)
    requires
        d1 > 0,
        d2 > 0,
        lo <= e1,
        lo <= e2,
        MANTISSA_MIN * d1 <= n1 < MANTISSA_END * d1,
        MANTISSA_MIN * d2 <= n2 < MANTISSA_END * d2,
        fraction_at_most(n1, d1, e1, n2, d2, e2, lo),
    ensures
        at_most(
            (Binary { mantissa: round_half_even(n1, d1), exponent: e1 }),
            (Binary { mantissa: round_half_even(n2, d2), exponent: e2 }),
        ),
{
    let (p1, p2) = (pow2((e1 - lo) as nat), pow2((e2 - lo) as nat));
    let (m1, m2) = (round_half_even(n1, d1), round_half_even(n2, d2));
    vstd::arithmetic::power2::lemma_pow2_pos((e1 - lo) as nat);
    vstd::arithmetic::power2::lemma_pow2_pos((e2 - lo) as nat);
    lemma_rounded_mantissa(n1, d1);
    lemma_rounded_mantissa(n2, d2);
    if e1 == e2 {
        assert(n1 * d2 <= n2 * d1) by (nonlinear_arith)
            requires
                n1 * d2 * p1 <= n2 * d1 * p1,
                p1 > 0,
        ;
        lemma_round_monotone(n1, d1, n2, d2);
        vstd::arithmetic::power2::lemma2_to64();
        assert(m1 * 1 == m1);
    } else if e1 < e2 {
        let k = (e2 - e1 - 1) as nat;
        lemma_pow2_next(k);
        assert((e2 - e1) as nat == k + 1);
        let p = pow2(k);
        assert(m1 <= m2 * (2 * p)) by (nonlinear_arith)
            requires
                m1 <= MANTISSA_END,
                m2 >= MANTISSA_MIN,
                p >= 1,
        ;
    } else {
        let k = (e1 - e2 - 1) as nat;
        lemma_pow2_next(k);
        lemma_pow2_plus(k + 1, (e2 - lo) as nat);
        assert((e1 - lo) as nat == k + 1 + (e2 - lo) as nat);
        let p = pow2(k);
        assert(p1 == 2 * p * p2);
        assert(p1 >= 2 * p2) by (nonlinear_arith)
            requires
                p1 == 2 * p * p2,
                p >= 1,
                p2 > 0,
        ;
        let left = n1 * d2;
        let right = n2 * d1;
        assert(2 * left > right) by (nonlinear_arith)
            requires
                left == n1 * d2,
                right == n2 * d1,
                MANTISSA_MIN * d1 <= n1,
                n2 < MANTISSA_END * d2,
                d1 > 0,
                d2 > 0,
        ;
        assert(false) by (nonlinear_arith)
            requires
                left * p1 <= right * p2,
                2 * left > right,
                p1 >= 2 * p2,
                p2 > 0,
                left >= 0,
        ;
    }
}

proof fn lemma_nearest_positive(n: nat, d: nat, e: int)
    requires
        n > 0,
        d > 0,
    ensures
        nearest(n, d, e).mantissa > 0,
    decreases distance(n, d),
{
    lemma_nearest_step(n, d, e);
    lemma_distance_step(n, d);
    if n < MANTISSA_MIN * d {
        lemma_nearest_positive(2 * n, d, e - 1);
    } else if n >= MANTISSA_END * d {
        lemma_nearest_positive(n, 2 * d, e + 1);
    } else {
        lemma_rounded_mantissa(n, d);
    }
}

/// Integers keep their order as doubles.
pub proof fn law_integer_keeps_order(a: nat, b: nat)
    requires
        a <= b,
    ensures
        at_most(integer(a), integer(b)),
{
    vstd::arithmetic::power2::lemma2_to64();
    assert(a * 1 * 1 <= b * 1 * 1);
    lemma_nearest_monotone(a, 1, 0, b, 1, 0, 0);
}

/// Division by the same number keeps the order.
pub proof fn law_quotient_keeps_order(a: Binary, b: Binary, by: Binary)
    requires
        at_most(a, b),
        by.mantissa > 0,
    ensures
        at_most(quotient(a, by), quotient(b, by)),
{
    let lo = if a.exponent <= b.exponent {
        a.exponent
    } else {
        b.exponent
    };
    lemma_at_most_scaled(a, b, lo);
    let (p, q) = (pow2((a.exponent - lo) as nat), pow2((b.exponent - lo) as nat));
    let (x, y, d) = (a.mantissa, b.mantissa, by.mantissa);
    assert(x * d * p <= y * d * q) by (nonlinear_arith)
        requires
            x * p <= y * q,
    ;
    let shift = by.exponent;
    assert(((a.exponent - shift) - (lo - shift)) as nat == (a.exponent - lo) as nat);
    assert(((b.exponent - shift) - (lo - shift)) as nat == (b.exponent - lo) as nat);
    lemma_nearest_monotone(x, d, a.exponent - shift, y, d, b.exponent - shift, lo - shift);
}

/// Multiplication by the same number keeps the order.
pub proof fn law_product_keeps_order(a: Binary, b: Binary, by: Binary)
    requires
        at_most(a, b),
    ensures
        at_most(product(a, by), product(b, by)),
{
    let lo = if a.exponent <= b.exponent {
        a.exponent
    } else {
        b.exponent
    };
    lemma_at_most_scaled(a, b, lo);
    let (p, q) = (pow2((a.exponent - lo) as nat), pow2((b.exponent - lo) as nat));
    let (x, y, k) = (a.mantissa, b.mantissa, by.mantissa);
    assert((x * k) * 1 * p <= (y * k) * 1 * q) by (nonlinear_arith)
        requires
            x * p <= y * q,
    ;
    let shift = by.exponent;
    assert(((a.exponent + shift) - (lo + shift)) as nat == (a.exponent - lo) as nat);
    assert(((b.exponent + shift) - (lo + shift)) as nat == (b.exponent - lo) as nat);
    lemma_nearest_monotone(x * k, 1, a.exponent + shift, y * k, 1, b.exponent + shift, lo + shift);
}

/// A part divided by the whole is between zero and one; zero of an empty whole.
pub proof fn law_part_of_whole_in_unit(part: nat, whole: nat)
    requires
        part <= whole,
    ensures
        in_unit(ratio(part, whole)),
        whole == 0 ==> ratio(part, whole) == zero(),
{
    lemma_zero_least(ratio(part, whole));
    if whole == 0 {
        lemma_zero_least(one());
    } else {
        let (a, b) = (integer(part), integer(whole));
        law_integer_keeps_order(part, whole);
        lemma_nearest_positive(whole, 1, 0);
        let e = a.exponent - b.exponent;
        let lo = if e <= 0 {
            e
        } else {
            0
        };
        let (p, q) = (pow2((e - lo) as nat), pow2((0 - lo) as nat));
        let (x, y) = (a.mantissa, b.mantissa);
        vstd::arithmetic::power2::lemma2_to64();
        assert(x * p <= y * q) by {
            if e >= 0 {
                assert(y * 1 == y);
            } else {
                assert((b.exponent - a.exponent) as nat == (0 - lo) as nat);
                assert(x * 1 == x);
            }
        }
        assert(x * 1 * p <= 1 * y * q) by (nonlinear_arith)
            requires
                x * p <= y * q,
        ;
        lemma_nearest_monotone(x, y, e, 1, 1, 0, lo);
    }
}

/// A larger part of the same whole is no smaller a rate.
pub proof fn law_rates_follow_their_part(part: nat, more: nat, whole: nat)
    requires
        part <= more,
    ensures
        at_most(ratio(part, whole), ratio(more, whole)),
{
    if whole == 0 {
        law_at_most_total(zero(), zero());
    } else {
        law_integer_keeps_order(part, more);
        lemma_nearest_positive(whole, 1, 0);
        law_quotient_keeps_order(integer(part), integer(more), integer(whole));
    }
}

/// The ceiling of a number, without an upper limit.
spec fn unlimited_ceiling(a: Binary) -> nat {
    if a.exponent >= 0 {
        a.mantissa * pow2(a.exponent as nat)
    } else {
        let d = pow2((-a.exponent) as nat);
        ((a.mantissa + d - 1) as nat) / d
    }
}

proof fn lemma_ceiling_bounds(a: Binary, lo: int)
    requires
        lo <= a.exponent,
        lo <= 0,
    ensures
        ({
            let unit = pow2((0 - lo) as nat);
            let scaled = a.mantissa * pow2((a.exponent - lo) as nat);
            (unlimited_ceiling(a) - 1) * unit < scaled <= unlimited_ceiling(a) * unit
        }),
{
    let unit = pow2((0 - lo) as nat);
    let c = unlimited_ceiling(a) as int;
    let m = a.mantissa as int;
    if a.exponent >= 0 {
        lemma_pow2_plus(a.exponent as nat, (0 - lo) as nat);
        assert((a.exponent - lo) as nat == a.exponent as nat + (0 - lo) as nat);
        let p = pow2(a.exponent as nat) as int;
        assert((c - 1) * unit < m * (p * unit) <= c * unit) by (nonlinear_arith)
            requires
                c == m * p,
                unit > 0,
        ;
    } else {
        let d = pow2((-a.exponent) as nat);
        let s = pow2((a.exponent - lo) as nat);
        lemma_pow2_plus((-a.exponent) as nat, (a.exponent - lo) as nat);
        assert((0 - lo) as nat == (-a.exponent) as nat + (a.exponent - lo) as nat);
        vstd::arithmetic::div_mod::lemma_fundamental_div_mod(m + d - 1, d as int);
        let r = (m + d - 1) % (d as int);
        assert((c - 1) * d < m <= c * d) by (nonlinear_arith)
            requires
                m + d - 1 == d * c + r,
                0 <= r < d,
        ;
        assert((c - 1) * (d * s) < m * s <= c * (d * s)) by (nonlinear_arith)
            requires
                (c - 1) * d < m <= c * d,
                s > 0,
        ;
    }
}

/// Ceilings keep the order.
pub proof fn law_ceiling_keeps_order(a: Binary, b: Binary)
    requires
        at_most(a, b),
    ensures
        ceiling(a) <= ceiling(b),
{
    let low = if a.exponent <= b.exponent {
        a.exponent
    } else {
        b.exponent
    };
    let lo = if low <= 0 {
        low
    } else {
        0
    };
    lemma_at_most_scaled(a, b, lo);
    lemma_ceiling_bounds(a, lo);
    lemma_ceiling_bounds(b, lo);
    vstd::arithmetic::power2::lemma_pow2_pos((0 - lo) as nat);
    let (x, y) = (unlimited_ceiling(a) as int, unlimited_ceiling(b) as int);
    let unit = pow2((0 - lo) as nat) as int;
    assert(x <= y) by (nonlinear_arith)
        requires
            (x - 1) * unit < y * unit,
            unit > 0,
    ;
}

/// The integer `m * 2^e` as it stands, without rounding.
pub open spec fn exactly(m: nat, e: int) -> Binary {
    Binary { mantissa: m, exponent: e }
}

/// Rounding leaves a number as it is whose mantissa fits.
proof fn lemma_nearest_exact(m: nat, e: int)
    requires
        m <= MANTISSA_END,
    ensures
        at_most(nearest(m, 1, e), exactly(m, e)),
        at_most(exactly(m, e), nearest(m, 1, e)),
    decreases distance(m, 1),
{
    vstd::arithmetic::power2::lemma2_to64();
    if m == 0 {
        lemma_zero_least(exactly(m, e));
        let lo = if e <= 0 {
            e
        } else {
            0
        };
        lemma_at_most_scaled(exactly(0, e), zero(), lo);
        let (p, q) = (pow2((e - lo) as nat), pow2((0 - lo) as nat));
        assert(0 * p <= 0 * q) by (nonlinear_arith);
    } else {
        lemma_nearest_step(m, 1, e);
        lemma_distance_step(m, 1);
        if m < MANTISSA_MIN {
            lemma_nearest_exact(2 * m, e - 1);
            let (half, whole) = (exactly(2 * m, e - 1), exactly(m, e));
            lemma_at_most_scaled(half, whole, e - 1);
            lemma_at_most_scaled(whole, half, e - 1);
            assert((2 * m) * 1 == m * 2);
            law_at_most_transitive(nearest(m, 1, e), half, whole);
            law_at_most_transitive(whole, half, nearest(m, 1, e));
        } else if m == MANTISSA_END {
            lemma_nearest_step(m, 2, e + 1);
            assert(round_half_even(m, 2) == MANTISSA_MIN);
            let (half, whole) = (exactly(MANTISSA_MIN as nat, e + 1), exactly(m, e));
            lemma_at_most_scaled(half, whole, e);
            lemma_at_most_scaled(whole, half, e);
        } else {
            assert(round_half_even(m, 1) == m);
            law_at_most_total(exactly(m, e), exactly(m, e));
        }
    }
}

proof fn lemma_mantissa_fits(n: nat, d: nat, e: int)
    requires
        d > 0,
    ensures
        nearest(n, d, e).mantissa <= MANTISSA_END,
    decreases distance(n, d),
{
    if n > 0 {
        lemma_nearest_step(n, d, e);
        lemma_distance_step(n, d);
        if n < MANTISSA_MIN * d {
            lemma_mantissa_fits(2 * n, d, e - 1);
        } else if n >= MANTISSA_END * d {
            lemma_mantissa_fits(n, 2 * d, e + 1);
        } else {
            lemma_rounded_mantissa(n, d);
        }
    }
}

/// A share of `k` that is between none and all of it is no more than `k`.
pub proof fn law_shares_do_not_exceed_the_whole(share: Binary, k: nat)
    requires
        at_most(share, one()),
        k <= MANTISSA_END,
    ensures
        at_most(times(share, k), exactly(k, 0)),
{
    let (unit, whole) = (one(), integer(k));
    law_product_keeps_order(share, unit, whole);
    lemma_nearest_exact(1, 0);
    lemma_nearest_exact(k, 0);
    lemma_mantissa_fits(k, 1, 0);
    lemma_nearest_exact(whole.mantissa, whole.exponent);
    let (u, w) = (unit.mantissa, whole.mantissa);
    let lo = if unit.exponent <= 0 {
        unit.exponent
    } else {
        0
    };
    lemma_at_most_scaled(unit, exactly(1, 0), lo);
    let (p, q) = (pow2((unit.exponent - lo) as nat), pow2((0 - lo) as nat));
    assert((u * w) * 1 * p <= w * 1 * q) by (nonlinear_arith)
        requires
            u * p <= 1 * q,
    ;
    let base = whole.exponent + lo;
    assert((unit.exponent + whole.exponent - base) as nat == (unit.exponent - lo) as nat);
    assert((whole.exponent - base) as nat == (0 - lo) as nat);
    lemma_nearest_monotone(
        u * w,
        1,
        unit.exponent + whole.exponent,
        w,
        1,
        whole.exponent,
        base,
    );
    let again = nearest(w, 1, whole.exponent);
    law_at_most_transitive(times(share, k), product(unit, whole), again);
    law_at_most_transitive(times(share, k), again, whole);
    law_at_most_transitive(times(share, k), whole, exactly(k, 0));
}

/// A number that does not exceed an integer is not rounded above it.
pub proof fn law_rounding_stays_below_integers(a: Binary, k: nat)
    requires
        at_most(a, exactly(k, 0)),
    ensures
        rounded(a) <= k,
{
    if a.exponent < 0 {
        let d = pow2((-a.exponent) as nat) as int;
        vstd::arithmetic::power2::lemma_pow2_pos((-a.exponent) as nat);
        let m = a.mantissa as int;
        assert((2 * m + d) / (2 * d) <= k) by (nonlinear_arith)
            requires
                m <= k * d,
                d > 0,
                m >= 0,
        ;
    }
}

} // verus!
