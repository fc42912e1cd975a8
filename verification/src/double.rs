//! Exact arithmetic on non-negative double-precision numbers.
//!
//! Rates and durations are published as doubles. A [`Double`] holds one as
//! `mantissa * 2^exponent` with a mantissa of at most 53 bits, and the
//! operations here round to nearest, ties to even, the way the hardware does.
//! The exponent has no upper or lower limit: overflow to infinity and gradual
//! underflow do not occur for the magnitudes that metrics take.

use vstd::arithmetic::power::pow;
use vstd::arithmetic::power2::pow2;
use vstd::prelude::*;

use crate::text::{decimal, digit_char, padded_decimal};
use crate::text::{push_decimal, push_padded};

verus! {

/// Smallest mantissa of a nonzero double, `2^52`.
pub const MANTISSA_MIN: u64 = 4503599627370496;

/// One more than the largest mantissa of a double, `2^53`.
pub const MANTISSA_END: u64 = 9007199254740992;

/// The number `mantissa * 2^exponent`.
pub struct Binary {
    pub mantissa: nat,
    pub exponent: int,
}

/// A non-negative double-precision number, `mantissa * 2^exponent`.
#[derive(Clone, Copy, Debug)]
pub struct Double {
    pub mantissa: u64,
    pub exponent: i64,
}

impl View for Double {
    type V = Binary;

    open spec fn view(&self) -> Binary {
        Binary { mantissa: self.mantissa as nat, exponent: self.exponent as int }
    }
}

/// `n / d` rounded to the nearest integer, ties to even.
pub open spec fn round_half_even(n: nat, d: nat) -> nat {
    let q = n / d;
    let r = n % d;
    if 2 * r < d || (2 * r == d && q % 2 == 0) {
        q
    } else {
        q + 1
    }
}

/// `n / d * 2^exponent` for a quotient below `2^53`: doubles the numerator
/// until the quotient has 53 bits, then rounds it.
pub open spec fn nearest_above(n: nat, d: nat, exponent: int) -> Binary
    decreases MANTISSA_END * d - n,
{
    if n == 0 || d == 0 {
        Binary { mantissa: 0, exponent: 0 }
    } else if n >= MANTISSA_MIN * d {
        Binary { mantissa: round_half_even(n, d), exponent }
    } else {
        nearest_above(2 * n, d, exponent - 1)
    }
}

/// `n / d * 2^exponent` for a quotient of at least `2^52`: doubles the
/// denominator until the quotient has 53 bits, then rounds it.
pub open spec fn nearest_below(n: nat, d: nat, exponent: int) -> Binary
    decreases n - d,
{
    if n == 0 || d == 0 {
        Binary { mantissa: 0, exponent: 0 }
    } else if n < MANTISSA_END * d {
        Binary { mantissa: round_half_even(n, d), exponent }
    } else {
        nearest_below(n, 2 * d, exponent + 1)
    }
}

/// The double nearest to `n / d * 2^exponent`, ties to even.
pub open spec fn nearest(n: nat, d: nat, exponent: int) -> Binary {
    if n < MANTISSA_MIN * d {
        nearest_above(n, d, exponent)
    } else {
        nearest_below(n, d, exponent)
    }
}

/// The double nearest to the integer `n`.
pub open spec fn integer(n: nat) -> Binary {
    nearest(n, 1, 0)
}

/// The double nearest to the quotient of two doubles.
pub open spec fn quotient(a: Binary, b: Binary) -> Binary {
    nearest(a.mantissa, b.mantissa, a.exponent - b.exponent)
}

/// The double nearest to the product of two doubles.
pub open spec fn product(a: Binary, b: Binary) -> Binary {
    nearest(a.mantissa * b.mantissa, 1, a.exponent + b.exponent)
}

/// The quotient of two integers as a double; zero when the divisor is zero.
pub open spec fn ratio(n: nat, d: nat) -> Binary {
    if d == 0 {
        Binary { mantissa: 0, exponent: 0 }
    } else {
        quotient(integer(n), integer(d))
    }
}

/// A double times an integer.
pub open spec fn times(a: Binary, k: nat) -> Binary {
    product(a, integer(k))
}

/// A double with `places` digits after the decimal point.
pub open spec fn fixed_text(a: Binary, places: nat) -> Seq<char> {
    if a.exponent >= 0 {
        decimal(a.mantissa * pow2(a.exponent as nat)) + "."@ + padded_decimal(0, places)
    } else {
        let unit = pow(10, places) as nat;
        let k = round_half_even(a.mantissa * unit, pow2((-a.exponent) as nat));
        decimal(k / unit) + "."@ + padded_decimal(k % unit, places)
    }
}

/// The smallest integer that is no less than the double, at most `u64::MAX`.
pub open spec fn ceiling(a: Binary) -> nat {
    let n = if a.exponent >= 0 {
        a.mantissa * pow2(a.exponent as nat)
    } else {
        let d = pow2((-a.exponent) as nat);
        ((a.mantissa + d - 1) as nat) / d
    };
    if n <= u64::MAX {
        n
    } else {
        u64::MAX as nat
    }
}

/// The nearest integer, halves rounded up, at most `u64::MAX`.
pub open spec fn rounded(a: Binary) -> nat {
    let n = if a.exponent >= 0 {
        a.mantissa * pow2(a.exponent as nat)
    } else {
        let d = pow2((-a.exponent) as nat);
        (2 * a.mantissa + d) / (2 * d)
    };
    if n <= u64::MAX {
        n
    } else {
        u64::MAX as nat
    }
}

/// `n / d` rounded to the nearest integer, ties to even.
fn round_quotient(n: u128, d: u128) -> (q: u128)
    requires
        0 < d <= 0x4000_0000_0000_0000_0000_0000_0000_0000,
        n / d < u128::MAX,
    ensures
        q == round_half_even(n as nat, d as nat),
{
    let q: u128 = n / d;
    let r: u128 = n % d;
    if 2 * r < d || (2 * r == d && q % 2 == 0) {
        q
    } else {
        q + 1
    }
}

/// A quotient in the range of mantissas stays there when it is rounded, or
/// becomes the power of two that follows.
pub proof fn lemma_rounded_mantissa(n: nat, d: nat)
    requires
        d > 0,
        MANTISSA_MIN * d <= n < MANTISSA_END * d,
    ensures
        MANTISSA_MIN <= n / d < MANTISSA_END,
        MANTISSA_MIN <= round_half_even(n, d) <= MANTISSA_END,
{
    assert(MANTISSA_MIN <= n / d < MANTISSA_END) by (nonlinear_arith)
        requires
            d > 0,
            MANTISSA_MIN * d <= n < MANTISSA_END * d,
    ;
}

/// The double nearest to `n / d * 2^exponent`.
fn nearest_double(n: u128, d: u128, exponent: i64) -> (x: Double)
    requires
        0 < d <= 0x40_0000_0000_0000_0000,
        -1_000_000 <= exponent <= 1_000_000,
    ensures
        x@ == nearest(n as nat, d as nat, exponent as int),
        x.mantissa <= MANTISSA_END,
        n > 0 ==> x.mantissa >= MANTISSA_MIN,
        n > 0 ==> exponent - 128 <= x.exponent <= exponent + 128,
        n == 0 ==> x.exponent == 0,
{
    if n == 0 {
        return Double { mantissa: 0, exponent: 0 };
    }
    let mut num: u128 = n;
    let mut den: u128 = d;
    let mut exp: i64 = exponent;
    if num < MANTISSA_MIN as u128 * den {
        let ghost mut rounds: nat = 0;
        proof {
            vstd::arithmetic::power2::lemma2_to64();
        }
        while num < MANTISSA_MIN as u128 * den
            invariant
                den == d,
                0 < den <= 0x40_0000_0000_0000_0000,
                num > 0,
                num < MANTISSA_END * den,
                num >= pow2(rounds),
                exp == exponent - rounds,
                rounds <= 128,
                -1_000_000 <= exponent <= 1_000_000,
                nearest_above(n as nat, d as nat, exponent as int) == nearest_above(
                    num as nat,
                    den as nat,
                    exp as int,
                ),
            decreases MANTISSA_END * den - num,
        {
            proof {
                lemma_doublings(num, rounds);
                assert(2 * num < MANTISSA_END * den) by (nonlinear_arith)
                    requires
                        num < MANTISSA_MIN * den,
                ;
                vstd::arithmetic::power2::lemma_pow2_unfold((rounds + 1) as nat);
                rounds = rounds + 1;
            }
            num = num * 2;
            exp = exp - 1;
        }
        proof {
            lemma_rounded_mantissa(num as nat, den as nat);
        }
        let mantissa: u64 = round_quotient(num, den) as u64;
        Double { mantissa, exponent: exp }
    } else {
        let ghost mut rounds: nat = 0;
        proof {
            vstd::arithmetic::power2::lemma2_to64();
            assert(num / den >= MANTISSA_MIN as u128) by (nonlinear_arith)
                requires
                    den > 0,
                    num >= MANTISSA_MIN * den,
            ;
        }
        while num / den >= MANTISSA_END as u128
            invariant
                num == n,
                den > 0,
                num / den >= MANTISSA_MIN as u128,
                den >= pow2(rounds),
                exp == exponent + rounds,
                rounds <= 128,
                -1_000_000 <= exponent <= 1_000_000,
                nearest_below(n as nat, d as nat, exponent as int) == nearest_below(
                    num as nat,
                    den as nat,
                    exp as int,
                ),
            decreases num / den,
        {
            proof {
                lemma_doublings(den, rounds);
                lemma_halved_quotient(num as int, den as int);
                vstd::arithmetic::power2::lemma_pow2_unfold((rounds + 1) as nat);
                rounds = rounds + 1;
            }
            den = den * 2;
            exp = exp + 1;
        }
        proof {
            assert(MANTISSA_MIN * den <= num < MANTISSA_END * den) by (nonlinear_arith)
                requires
                    den > 0,
                    MANTISSA_MIN as u128 <= num / den < MANTISSA_END as u128,
            ;
            assert(den <= 0x4000_0000_0000_0000_0000_0000_0000_0000) by (nonlinear_arith)
                requires
                    MANTISSA_MIN * den <= num,
            ;
            lemma_rounded_mantissa(num as nat, den as nat);
        }
        let mantissa: u64 = round_quotient(num, den) as u64;
        Double { mantissa, exponent: exp }
    }
}

proof fn lemma_halved_quotient(n: int, d: int)
    requires
        d > 0,
        n / d >= MANTISSA_END,
    ensures
        n >= MANTISSA_END * d,
        MANTISSA_MIN <= n / (2 * d) < n / d,
{
    assert(n >= MANTISSA_END * d) by (nonlinear_arith)
        requires
            d > 0,
            n / d >= MANTISSA_END,
    ;
    assert(MANTISSA_MIN <= n / (2 * d) && n / (2 * d) < n / d) by (nonlinear_arith)
        requires
            d > 0,
            n / d >= MANTISSA_END,
            n >= MANTISSA_END * d,
    ;
}

proof fn lemma_doublings(x: u128, rounds: nat)
    requires
        x >= pow2(rounds),
    ensures
        rounds < 128,
{
    if rounds >= 128 {
        vstd::arithmetic::power2::lemma2_to64();
        vstd::arithmetic::power2::lemma_pow2_adds(64, 64);
        if rounds > 128 {
            vstd::arithmetic::power2::lemma_pow2_strictly_increases(128, rounds);
        }
        assert(pow2(128) == 0x1_0000_0000_0000_0000 * 0x1_0000_0000_0000_0000);
    }
}


/// The number whose decimal digits, least significant first, are `digits`.
spec fn digits_value(digits: Seq<u8>) -> nat
    decreases digits.len(),
{
    if digits.len() == 0 {
        0
    } else {
        digits[0] as nat + 10 * digits_value(digits.skip(1))
    }
}

spec fn are_digits(digits: Seq<u8>) -> bool {
    forall|i: int| 0 <= i < digits.len() ==> #[trigger] digits[i] < 10
}

proof fn lemma_pow10_step(k: nat)
    ensures
        pow(10, k + 1) == 10 * pow(10, k),
        pow(10, k) > 0,
{
    reveal(pow);
    vstd::arithmetic::power::lemma_pow_positive(10, k);
}

proof fn lemma_digits_push(digits: Seq<u8>, d: u8)
    ensures
        digits_value(digits.push(d)) == digits_value(digits) + pow(10, digits.len()) * d,
    decreases digits.len(),
{
    let rest = digits.push(d).skip(1);
    if digits.len() == 0 {
        assert(rest =~= Seq::<u8>::empty());
        vstd::arithmetic::power::lemma_pow0(10);
        assert(digits_value(rest) == 0);
    } else {
        assert(rest =~= digits.skip(1).push(d));
        lemma_digits_push(digits.skip(1), d);
        lemma_pow10_step((digits.len() - 1) as nat);
        let p = pow(10, (digits.len() - 1) as nat);
        assert(10 * (p * d) == (10 * p) * d) by (nonlinear_arith);
    }
}

/// Twice the number that `digits` holds.
fn doubled_digits(digits: &Vec<u8>) -> (out: Vec<u8>)
    requires
        are_digits(digits@),
        digits@.len() > 0,
        digits@[digits@.len() - 1] > 0,
        digits@.len() < usize::MAX,
    ensures
        are_digits(out@),
        out@.len() > 0,
        out@[out@.len() - 1] > 0,
        out@.len() <= digits@.len() + 1,
        digits_value(out@) == 2 * digits_value(digits@),
{
    let mut out: Vec<u8> = Vec::new();
    let mut carry: u8 = 0;
    let mut i: usize = 0;
    proof {
        vstd::arithmetic::power::lemma_pow0(10);
        assert(digits@.skip(0) =~= digits@);
    }
    while i < digits.len()
        invariant
            i <= digits@.len(),
            are_digits(digits@),
            are_digits(out@),
            out@.len() == i,
            carry <= 1,
            digits_value(out@) + pow(10, i as nat) * (carry + 2 * digits_value(
                digits@.skip(i as int),
            )) == 2 * digits_value(digits@),
            i > 0 && digits@[i - 1] > 0 ==> out@[i - 1] > 0 || carry > 0,
        decreases digits@.len() - i,
    {
        let d: u8 = digits[i];
        let t: u8 = 2 * d + carry;
        let low: u8 = t % 10;
        let high: u8 = t / 10;
        proof {
            let before = out@;
            let p = pow(10, i as nat);
            let rest = digits_value(digits@.skip(i as int + 1));
            assert(digits@.skip(i as int).skip(1) =~= digits@.skip(i as int + 1));
            lemma_digits_push(before, low);
            lemma_pow10_step(i as nat);
            assert(p * (carry + 2 * (d + 10 * rest)) == p * low + (10 * p) * (high + 2 * rest))
                by (nonlinear_arith)
                requires
                    2 * d + carry == 10 * high + low,
            ;
        }
        out.push(low);
        carry = high;
        i = i + 1;
    }
    proof {
        assert(digits@.skip(i as int) =~= Seq::<u8>::empty());
        let p = pow(10, i as nat);
        assert(
            p * (carry + 2 * 0) == p * carry && (carry == 0 ==> p * carry == 0)
        ) by (nonlinear_arith);
    }
    if carry > 0 {
        proof {
            lemma_digits_push(out@, carry);
        }
        out.push(carry);
    }
    out
}

/// Appends the number that `digits` holds from index `from` on.
fn push_digits(out: &mut String, digits: &Vec<u8>, from: usize)
    requires
        are_digits(digits@),
        from < digits@.len(),
        digits@[digits@.len() - 1] > 0 || digits@.len() == from + 1,
    ensures
        final(out)@ == old(out)@ + decimal(digits_value(digits@.skip(from as int))),
        digits_value(digits@.skip(from as int)) > 0 || digits@[digits@.len() - 1] == 0,
    decreases digits@.len() - from,
{
    let ghost tail = digits@.skip(from as int);
    let ghost value = digits_value(tail);
    proof {
        assert(tail.skip(1) =~= digits@.skip(from as int + 1));
    }
    if from < digits.len() - 1 {
        push_digits(out, digits, from + 1);
        let ghost before = out@;
        let d: u8 = digits[from];
        push_decimal(out, d as u128);
        proof {
            assert(value / 10 == digits_value(tail.skip(1)) && value % 10 == d);
            assert(decimal(value) == decimal(value / 10).push(digit_char(d as nat)));
            assert(old(out)@ + decimal(value) =~= before + seq![digit_char(d as nat)]);
        }
    } else {
        push_decimal(out, digits[from] as u128);
        proof {
            assert(tail.skip(1) =~= Seq::<u8>::empty());
        }
    }
}

/// Appends the decimal digits of `m * 2^e`.
fn push_scaled_decimal(out: &mut String, m: u64, e: u64)
    requires
        e <= 2_000_000,
    ensures
        final(out)@ == old(out)@ + decimal(m as nat * pow2(e as nat)),
{
    proof {
        vstd::arithmetic::power2::lemma2_to64();
    }
    if m == 0 {
        push_decimal(out, 0);
        return ;
    }
    let mut digits: Vec<u8> = Vec::new();
    let mut rest: u64 = m;
    proof {
        vstd::arithmetic::power::lemma_pow0(10);
    }
    while rest > 0
        invariant
            m > 0,
            are_digits(digits@),
            digits_value(digits@) + pow(10, digits@.len()) * rest == m,
            digits@.len() > 0 || rest == m,
            rest == 0 ==> digits@[digits@.len() - 1] > 0,
            rest > 0 ==> rest * pow2(digits@.len()) <= m,
            digits@.len() <= 128,
        decreases rest,
    {
        let d: u8 = (rest % 10) as u8;
        proof {
            lemma_digits_push(digits@, d);
            lemma_pow10_step(digits@.len());
            let p = pow(10, digits@.len());
            let q = (rest / 10) as int;
            let w = pow2(digits@.len());
            vstd::arithmetic::power2::lemma_pow2_unfold((digits@.len() + 1) as nat);
            assert(rest * w >= w && q * (2 * w) <= rest * w) by (nonlinear_arith)
                requires
                    rest >= 1,
                    rest >= 2 * q,
                    w >= 0,
            ;
            lemma_doublings(m as u128, digits@.len());
            assert(p * rest == p * d + (10 * p) * q) by (nonlinear_arith)
                requires
                    rest == 10 * q + d,
            ;
        }
        digits.push(d);
        rest = rest / 10;
    }
    let mut i: u64 = 0;
    while i < e
        invariant
            i <= e,
            are_digits(digits@),
            digits@.len() > 0,
            digits@[digits@.len() - 1] > 0,
            digits@.len() <= 128 + i,
            e <= 2_000_000,
            digits_value(digits@) == m * pow2(i as nat),
        decreases e - i,
    {
        proof {
            vstd::arithmetic::power2::lemma_pow2_unfold((i + 1) as nat);
            let p = pow2(i as nat);
            assert(2 * (m * p) == m * (2 * p)) by (nonlinear_arith);
        }
        digits = doubled_digits(&digits);
        i = i + 1;
    }
    push_digits(out, &digits, 0);
    assert(digits@.skip(0) =~= digits@);
}

/// `2^k` for `k` below 127.
fn power_of_two(k: u64) -> (p: u128)
    requires
        k < 127,
    ensures
        p == pow2(k as nat),
        0 < p <= 0x4000_0000_0000_0000_0000_0000_0000_0000,
{
    let mut p: u128 = 1;
    let mut i: u64 = 0;
    proof {
        vstd::arithmetic::power2::lemma2_to64();
        lemma_pow2_126();
    }
    while i < k
        invariant
            i <= k < 127,
            p == pow2(i as nat),
            pow2(126) == 0x4000_0000_0000_0000_0000_0000_0000_0000,
        decreases k - i,
    {
        proof {
            vstd::arithmetic::power2::lemma_pow2_unfold((i + 1) as nat);
            lemma_pow2_monotonic((i + 1) as nat, 126);
        }
        p = p * 2;
        i = i + 1;
    }
    proof {
        lemma_pow2_monotonic(k as nat, 126);
        vstd::arithmetic::power2::lemma_pow2_pos(k as nat);
    }
    p
}

proof fn lemma_pow2_126()
    ensures
        pow2(126) == 0x4000_0000_0000_0000_0000_0000_0000_0000,
        pow2(125) == 0x2000_0000_0000_0000_0000_0000_0000_0000,
{
    vstd::arithmetic::power2::lemma2_to64();
    vstd::arithmetic::power2::lemma2_to64_rest();
    vstd::arithmetic::power2::lemma_pow2_adds(63, 63);
    vstd::arithmetic::power2::lemma_pow2_adds(62, 63);
}

proof fn lemma_pow2_monotonic(a: nat, b: nat)
    requires
        a <= b,
    ensures
        pow2(a) <= pow2(b),
{
    if a < b {
        vstd::arithmetic::power2::lemma_pow2_strictly_increases(a, b);
    }
}

/// `10^places` for at most six places.
fn power_of_ten(places: usize) -> (p: u128)
    requires
        places <= 6,
    ensures
        p == pow(10, places as nat),
        0 < p <= 1_000_000,
{
    proof {
        vstd::arithmetic::power::lemma_pow0(10);
        lemma_pow10_step(0);
        lemma_pow10_step(1);
        lemma_pow10_step(2);
        lemma_pow10_step(3);
        lemma_pow10_step(4);
        lemma_pow10_step(5);
    }
    match places {
        0 => 1,
        1 => 10,
        2 => 100,
        3 => 1_000,
        4 => 10_000,
        5 => 100_000,
        _ => 1_000_000,
    }
}

proof fn lemma_rounds_to_zero(n: nat, k: nat)
    requires
        n < pow2(125),
        k >= 126,
    ensures
        round_half_even(n, pow2(k)) == 0,
        n < pow2(k),
{
    lemma_pow2_monotonic(126, k);
    vstd::arithmetic::power2::lemma_pow2_unfold(126);
    vstd::arithmetic::div_mod::lemma_basic_div(n as int, pow2(k) as int);
    vstd::arithmetic::div_mod::lemma_small_mod(n, pow2(k));
}

impl Double {
    /// Mantissa and exponent lie in the range that the operations accept.
    pub open spec fn within(self, limit: int) -> bool {
        &&& self.mantissa <= MANTISSA_END
        &&& -limit <= self.exponent <= limit
    }

    /// The double that has the given IEEE 754 bits, unless the sign is set or
    /// the bits stand for an infinity or a NaN.
    pub fn from_bits(bits: u64) -> (x: Option<Double>)
        ensures
            x is None <==> bits >= 0x7ff0_0000_0000_0000,
            x matches Some(d) ==> d.within(1_074) && d@ == (if bits < MANTISSA_MIN {
                Binary { mantissa: bits as nat, exponent: -1074 }
            } else {
                Binary {
                    mantissa: (MANTISSA_MIN + bits % MANTISSA_MIN) as nat,
                    exponent: bits as int / MANTISSA_MIN as int - 1075,
                }
            }),
    {
        if bits >= 0x7ff0_0000_0000_0000 {
            return None;
        }
        let fraction: u64 = bits % MANTISSA_MIN;
        let field: u64 = bits / MANTISSA_MIN;
        if bits < MANTISSA_MIN {
            Some(Double { mantissa: bits, exponent: -1074 })
        } else {
            Some(Double { mantissa: MANTISSA_MIN + fraction, exponent: field as i64 - 1075 })
        }
    }

    /// The double nearest to an integer.
    pub fn of_integer(n: u128) -> (x: Double)
        ensures
            x@ == integer(n as nat),
            x.within(128),
            n > 0 ==> x.mantissa > 0,
    {
        nearest_double(n, 1, 0)
    }

    /// The quotient of two integers; zero when the divisor is zero.
    pub fn ratio(n: u128, d: u128) -> (x: Double)
        ensures
            x@ == ratio(n as nat, d as nat),
            x.within(512),
    {
        if d == 0 {
            return Double { mantissa: 0, exponent: 0 };
        }
        let a: Double = Double::of_integer(n);
        let b: Double = Double::of_integer(d);
        nearest_double(a.mantissa as u128, b.mantissa as u128, a.exponent - b.exponent)
    }

    /// The product of two doubles.
    pub fn multiply(self, other: Double) -> (x: Double)
        requires
            self.within(10_000),
            other.within(10_000),
        ensures
            x@ == product(self@, other@),
            x.within(20_128),
    {
        proof {
            let a = self.mantissa;
            let b = other.mantissa;
            assert(a * b <= MANTISSA_END * MANTISSA_END) by (nonlinear_arith)
                requires
                    a <= MANTISSA_END,
                    b <= MANTISSA_END,
            ;
        }
        nearest_double(self.mantissa as u128 * other.mantissa as u128, 1, self.exponent
            + other.exponent)
    }

    /// The double times an integer.
    pub fn times(self, k: u64) -> (x: Double)
        requires
            self.within(9_000),
        ensures
            x@ == times(self@, k as nat),
            x.within(20_128),
    {
        self.multiply(Double::of_integer(k as u128))
    }

    /// The double as text with `places` digits after the decimal point.
    pub fn to_fixed(self, places: usize) -> (s: String)
        requires
            self.within(1_000_000),
            places <= 6,
        ensures
            s@ == fixed_text(self@, places as nat),
    {
        let mut s: String = String::new();
        if self.exponent >= 0 {
            push_scaled_decimal(&mut s, self.mantissa, self.exponent as u64);
            s.append(".");
            push_padded(&mut s, 0, places);
            assert(s@ =~= fixed_text(self@, places as nat));
        } else {
            let unit: u128 = power_of_ten(places);
            let shift: u64 = (-self.exponent) as u64;
            proof {
                let m = self.mantissa;
                lemma_pow2_126();
                assert(m * unit <= MANTISSA_END * 1_000_000) by (nonlinear_arith)
                    requires
                        m <= MANTISSA_END,
                        unit <= 1_000_000,
                ;
            }
            let scaled: u128 = self.mantissa as u128 * unit;
            let k: u128 = if shift >= 126 {
                proof {
                    lemma_rounds_to_zero(scaled as nat, shift as nat);
                }
                0
            } else {
                let d: u128 = power_of_two(shift);
                proof {
                    vstd::arithmetic::div_mod::lemma_div_is_ordered_by_denominator(
                        scaled as int,
                        1,
                        d as int,
                    );
                }
                round_quotient(scaled, d)
            };
            push_decimal(&mut s, k / unit);
            s.append(".");
            push_padded(&mut s, k % unit, places);
            assert(s@ =~= fixed_text(self@, places as nat));
        }
        s
    }

    /// The integer part of a double that has one, at most `u64::MAX`.
    fn scaled_up(self) -> (n: u64)
        requires
            self.within(1_000_000),
            self.exponent >= 0,
        ensures
            n == (if self.mantissa * pow2(self.exponent as nat) <= u64::MAX {
                self.mantissa * pow2(self.exponent as nat)
            } else {
                u64::MAX as int
            }),
    {
        let mut n: u64 = self.mantissa;
        let mut i: i64 = 0;
        proof {
            let m = self.mantissa;
            vstd::arithmetic::power2::lemma2_to64();
            assert(m * pow2(0) == m) by (nonlinear_arith)
                requires
                    pow2(0) == 1,
            ;
        }
        while i < self.exponent
            invariant
                0 <= i <= self.exponent,
                n == self.mantissa * pow2(i as nat),
            decreases self.exponent - i,
        {
            proof {
                let m = self.mantissa as nat;
                let p = pow2(i as nat);
                vstd::arithmetic::power2::lemma_pow2_unfold((i + 1) as nat);
                assert(m * (2 * p) == 2 * (m * p)) by (nonlinear_arith);
            }
            match n.checked_mul(2) {
                Some(doubled) => {
                    n = doubled;
                },
                None => {
                    proof {
                        let m = self.mantissa as nat;
                        let p = pow2((i + 1) as nat);
                        let q = pow2(self.exponent as nat);
                        lemma_pow2_monotonic((i + 1) as nat, self.exponent as nat);
                        assert(m * p <= m * q) by (nonlinear_arith)
                            requires
                                p <= q,
                        ;
                    }
                    return u64::MAX;
                },
            }
            i = i + 1;
        }
        n
    }

    /// The smallest integer that is no less than the double, at most
    /// `u64::MAX`.
    pub fn ceil(self) -> (n: u64)
        requires
            self.within(1_000_000),
        ensures
            n == ceiling(self@),
    {
        if self.exponent >= 0 {
            return self.scaled_up();
        }
        let shift: u64 = (-self.exponent) as u64;
        proof {
            lemma_pow2_126();
            vstd::arithmetic::power2::lemma_pow2_pos(shift as nat);
        }
        if shift >= 126 {
            proof {
                let m = self.mantissa as nat;
                let d = pow2(shift as nat);
                lemma_pow2_monotonic(126, shift as nat);
                if m == 0 {
                    vstd::arithmetic::div_mod::lemma_basic_div(d - 1, d as int);
                } else {
                    assert((m + d - 1) / (d as int) == 1) by (nonlinear_arith)
                        requires
                            0 < m < d,
                    ;
                }
            }
            return if self.mantissa == 0 {
                0
            } else {
                1
            };
        }
        let d: u128 = power_of_two(shift);
        let q: u128 = (self.mantissa as u128 + (d - 1)) / d;
        proof {
            let m = self.mantissa as int;
            assert((m + d - 1) / (d as int) <= m) by (nonlinear_arith)
                requires
                    m >= 0,
                    d >= 1,
            ;
        }
        q as u64
    }

    /// The nearest integer, halves rounded up, at most `u64::MAX`.
    pub fn round(self) -> (n: u64)
        requires
            self.within(1_000_000),
        ensures
            n == rounded(self@),
    {
        if self.exponent >= 0 {
            return self.scaled_up();
        }
        let shift: u64 = (-self.exponent) as u64;
        proof {
            lemma_pow2_126();
            vstd::arithmetic::power2::lemma_pow2_pos(shift as nat);
        }
        if shift >= 126 {
            proof {
                let m = self.mantissa as nat;
                let d = pow2(shift as nat);
                lemma_pow2_monotonic(126, shift as nat);
                vstd::arithmetic::div_mod::lemma_basic_div((2 * m + d) as int, (2 * d) as int);
            }
            return 0;
        }
        let d: u128 = power_of_two(shift);
        let q: u128 = (2 * (self.mantissa as u128) + d) / (2 * d);
        proof {
            let m = self.mantissa as int;
            assert((2 * m + d) / (2 * d) <= m + 1) by (nonlinear_arith)
                requires
                    m >= 0,
                    d >= 1,
            ;
        }
        q as u64
    }
}

} // verus!
