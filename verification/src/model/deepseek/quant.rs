//! Reading quantized values. A value is given by the bits of the
//! single-precision number that equals it.

use vstd::arithmetic::power2::pow2;
use vstd::prelude::*;

use crate::model::deepseek::tensor::{element_bytes, filled, LoadError, TensorContents, TensorDtype};

verus! {

/// `2^23`: one in the exponent field of a single-precision number.
pub const EXPONENT_UNIT: u32 = 8388608;

/// `2^31`: the sign of a single-precision number.
pub const SIGN_UNIT: u32 = 2147483648;

/// Significand of a finite single-precision number, as an integer.
pub open spec fn single_mantissa(bits: u32) -> nat {
    let magnitude = bits % SIGN_UNIT;
    if magnitude < EXPONENT_UNIT {
        magnitude as nat
    } else {
        (EXPONENT_UNIT + magnitude % EXPONENT_UNIT) as nat
    }
}

/// Power of two that the significand is multiplied with.
pub open spec fn single_exponent(bits: u32) -> int {
    let magnitude = bits % SIGN_UNIT;
    if magnitude < EXPONENT_UNIT {
        -149
    } else {
        magnitude as int / EXPONENT_UNIT as int - 150
    }
}

/// The bits stand for `m * 2^e`, negated where `negative`.
pub open spec fn stands_for(bits: u32, negative: bool, m: nat, e: int) -> bool {
    &&& (bits >= SIGN_UNIT) == negative
    &&& exists|k: nat|
        single_mantissa(bits) == m * #[trigger] pow2(k) && (m > 0 ==> single_exponent(bits) + k
            == e)
}

/// Bits of the value of an E8M0 scale: a bare exponent.
pub open spec fn e8m0_bits(b: u8) -> u32 {
    (b * EXPONENT_UNIT) as u32
}

/// Bits of the value of an E4M3 number: sign, four exponent bits biased by
/// seven, three mantissa bits. Exponent zero is subnormal.
pub open spec fn e4m3_bits(b: u8) -> u32 {
    let sign = (b / 128) * SIGN_UNIT;
    let exponent = (b / 8) % 16;
    let mantissa = b % 8;
    if exponent == 0 {
        if mantissa == 0 {
            sign as u32
        } else if mantissa == 1 {
            (sign + 118 * EXPONENT_UNIT) as u32
        } else if mantissa < 4 {
            (sign + 119 * EXPONENT_UNIT + (mantissa - 2) * 4194304) as u32
        } else {
            (sign + 120 * EXPONENT_UNIT + (mantissa - 4) * 2097152) as u32
        }
    } else {
        (sign + (exponent + 120) * EXPONENT_UNIT + mantissa * 1048576) as u32
    }
}

/// Bits of the value of an E2M1 number in the low half of a byte: sign, two
/// exponent bits biased by one, one mantissa bit. Exponent zero is subnormal.
pub open spec fn e2m1_bits(b: u8) -> u32 {
    let sign = ((b / 8) % 2) * SIGN_UNIT;
    let exponent = (b / 2) % 4;
    let mantissa = b % 2;
    if exponent == 0 {
        if mantissa == 0 {
            sign as u32
        } else {
            (sign + 126 * EXPONENT_UNIT) as u32
        }
    } else {
        (sign + (exponent + 126) * EXPONENT_UNIT + mantissa * 4194304) as u32
    }
}

/// Bits of the single-precision number that equals a bfloat16; a NaN is made
/// quiet.
pub open spec fn bf16_bits(b: u16) -> u32 {
    if b & 0x7fff > 0x7f80 {
        ((b | 0x0040) as u32) << 16
    } else {
        (b as u32) << 16
    }
}

/// The value of an E8M0 scale.
pub fn decode_f8_e8m0(bits: u8) -> (value: u32)
    ensures
        value == e8m0_bits(bits),
{
    bits as u32 * EXPONENT_UNIT
}

/// The value of an E4M3 number.
pub fn decode_fp8_e4m3fn(bits: u8) -> (value: u32)
    ensures
        value == e4m3_bits(bits),
{
    let sign: u32 = (bits / 128) as u32 * SIGN_UNIT;
    let exponent: u32 = ((bits / 8) % 16) as u32;
    let mantissa: u32 = (bits % 8) as u32;
    if exponent == 0 {
        if mantissa == 0 {
            sign
        } else if mantissa == 1 {
            sign + 118 * EXPONENT_UNIT
        } else if mantissa < 4 {
            sign + 119 * EXPONENT_UNIT + (mantissa - 2) * 4194304
        } else {
            sign + 120 * EXPONENT_UNIT + (mantissa - 4) * 2097152
        }
    } else {
        sign + (exponent + 120) * EXPONENT_UNIT + mantissa * 1048576
    }
}

/// The value of an E2M1 number in the low half of a byte.
pub fn decode_fp4_e2m1(bits: u8) -> (value: u32)
    ensures
        value == e2m1_bits(bits),
{
    let sign: u32 = ((bits / 8) % 2) as u32 * SIGN_UNIT;
    let exponent: u32 = ((bits / 2) % 4) as u32;
    let mantissa: u32 = (bits % 2) as u32;
    if exponent == 0 {
        if mantissa == 0 {
            sign
        } else {
            sign + 126 * EXPONENT_UNIT
        }
    } else {
        sign + (exponent + 126) * EXPONENT_UNIT + mantissa * 4194304
    }
}

/// An E4M3 number is decoded to its value: `mantissa / 8 * 2^-6` where the
/// exponent is zero, `(1 + mantissa / 8) * 2^(exponent - 7)` otherwise.
pub proof fn law_e4m3_value(b: u8)
    ensures
        ({
            let exponent = (b / 8) % 16;
            let mantissa = (b % 8) as nat;
            if exponent == 0 {
                stands_for(e4m3_bits(b), b >= 128, mantissa, -9)
            } else {
                stands_for(e4m3_bits(b), b >= 128, 8 + mantissa, exponent - 10)
            }
        }),
{
    vstd::arithmetic::power2::lemma2_to64();
    let exponent = (b / 8) % 16;
    let mantissa = (b % 8) as nat;
    let bits = e4m3_bits(b);
    if exponent == 0 {
        if mantissa == 0 {
            assert(single_mantissa(bits) == mantissa * pow2(0));
        } else if mantissa == 1 {
            assert(single_mantissa(bits) == mantissa * pow2(23));
        } else if mantissa < 4 {
            assert(single_mantissa(bits) == mantissa * pow2(22));
        } else {
            assert(single_mantissa(bits) == mantissa * pow2(21));
        }
    } else {
        assert(single_mantissa(bits) == (8 + mantissa) * pow2(20));
    }
}

/// An E2M1 number is decoded to its value: `mantissa / 2` where the exponent is
/// zero, `(1 + mantissa / 2) * 2^(exponent - 1)` otherwise.
pub proof fn law_e2m1_value(b: u8)
    requires
        b < 16,
    ensures
        ({
            let exponent = (b / 2) % 4;
            let mantissa = (b % 2) as nat;
            if exponent == 0 {
                stands_for(e2m1_bits(b), b >= 8, mantissa, -1)
            } else {
                stands_for(e2m1_bits(b), b >= 8, 2 + mantissa, exponent - 2)
            }
        }),
{
    vstd::arithmetic::power2::lemma2_to64();
    let exponent = (b / 2) % 4;
    let mantissa = (b % 2) as nat;
    let bits = e2m1_bits(b);
    if exponent == 0 {
        if mantissa == 0 {
            assert(single_mantissa(bits) == mantissa * pow2(0));
        } else {
            assert(single_mantissa(bits) == mantissa * pow2(23));
        }
    } else {
        assert(single_mantissa(bits) == (2 + mantissa) * pow2(22));
    }
}

/// Calls `half::bf16::to_f32`: the bits of a bfloat16 become the upper half of
/// the bits of the single-precision number; a NaN gets its quiet bit.
#[verifier::external_body]
fn bf16_to_single(bits: u16) -> (value: u32)
    ensures
        value == bf16_bits(bits),
{
    half::bf16::from_bits(bits).to_f32().to_bits()
}

/// Bits of the bfloat16 that is nearest to a single-precision number; of two
/// that are as near, the even one. A NaN is cut off and made quiet.
pub open spec fn nearest_bf16(bits: u32) -> u16 {
    let upper = bits / 65536;
    let lower = bits % 65536;
    if bits % SIGN_UNIT > 255 * EXPONENT_UNIT {
        (upper as u16) | 0x0040
    } else if lower > 32768 || (lower == 32768 && upper % 2 == 1) {
        (upper + 1) as u16
    } else {
        upper as u16
    }
}

/// Rounds a single-precision number to a bfloat16.
pub fn round_to_bf16(bits: u32) -> (rounded: u16)
    ensures
        rounded == nearest_bf16(bits),
{
    let upper: u16 = (bits / 65536) as u16;
    let lower: u32 = bits % 65536;
    if bits % SIGN_UNIT > 255 * EXPONENT_UNIT {
        upper | 0x0040
    } else if lower > 32768 || (lower == 32768 && upper % 2 == 1) {
        upper + 1
    } else {
        upper
    }
}

/// A bfloat16 that is no NaN survives being widened and rounded.
pub proof fn law_rounding_undoes_widening(b: u16)
    requires
        b & 0x7fff <= 0x7f80,
    ensures
        nearest_bf16(bf16_bits(b)) == b,
{
    assert((b as u32) << 16 == b as u32 * 65536) by (bit_vector);
    assert(b & 0x7fff == b % 0x8000) by (bit_vector);
    let bits = bf16_bits(b);
    assert(bits / 65536 == b && bits % 65536 == 0);
    assert(bits % SIGN_UNIT == (b % 0x8000) * 65536);
}

/// No bfloat16 of the same sign is nearer to a number than the one that it is
/// rounded to, counted in steps of single-precision numbers.
pub proof fn law_rounding_is_nearest(bits: u32, other: u16)
    requires
        bits % SIGN_UNIT <= 255 * EXPONENT_UNIT,
    ensures
        ({
            let rounded = nearest_bf16(bits) * 65536;
            let candidate = other * 65536;
            let near = if rounded >= bits {
                rounded - bits
            } else {
                bits - rounded
            };
            let far = if candidate >= bits {
                candidate - bits
            } else {
                bits - candidate
            };
            near <= far && near <= 32768
        }),
{
    let upper = bits / 65536;
    assert(bits == upper * 65536 + bits % 65536);
}

/// The little-endian number in `n` bytes from `at` on.
pub open spec fn little_endian(data: Seq<u8>, at: int, n: nat) -> nat
    decreases n,
{
    if n == 0 {
        0
    } else {
        data[at] as nat + 256 * little_endian(data, at + 1, (n - 1) as nat)
    }
}

/// Bits of element `idx`, where its type can be read as a number and it lies
/// inside the data.
pub open spec fn scalar(dtype: TensorDtype, data: Seq<u8>, idx: int) -> Result<u32, LoadError> {
    match dtype {
        TensorDtype::BF16 => if idx * 2 + 2 <= data.len() {
            Ok(bf16_bits(little_endian(data, idx * 2, 2) as u16))
        } else {
            Err(LoadError::OutOfRange)
        },
        TensorDtype::F32 => if idx * 4 + 4 <= data.len() {
            Ok(little_endian(data, idx * 4, 4) as u32)
        } else {
            Err(LoadError::OutOfRange)
        },
        TensorDtype::F8E4M3 => if idx < data.len() {
            Ok(e4m3_bits(data[idx]))
        } else {
            Err(LoadError::OutOfRange)
        },
        TensorDtype::F8E8M0 => if idx < data.len() {
            Ok(e8m0_bits(data[idx]))
        } else {
            Err(LoadError::OutOfRange)
        },
        _ => Err(LoadError::UnsupportedDtype),
    }
}

/// Reads element `idx` as a number.
pub fn scalar_value(dtype: TensorDtype, data: &[u8], idx: usize) -> (value: Result<u32, LoadError>)
    ensures
        value == scalar(dtype, data@, idx as int),
{
    proof {
        reveal_with_fuel(little_endian, 5);
    }
    match dtype {
        TensorDtype::BF16 => {
            if data.len() < 2 || idx > (data.len() - 2) / 2 {
                return Err(LoadError::OutOfRange);
            }
            let offset: usize = idx * 2;
            let low: u16 = data[offset] as u16;
            let high: u16 = data[offset + 1] as u16;
            Ok(bf16_to_single(low + 256 * high))
        },
        TensorDtype::F32 => {
            if data.len() < 4 || idx > (data.len() - 4) / 4 {
                return Err(LoadError::OutOfRange);
            }
            let offset: usize = idx * 4;
            let b0: u32 = data[offset] as u32;
            let b1: u32 = data[offset + 1] as u32;
            let b2: u32 = data[offset + 2] as u32;
            let b3: u32 = data[offset + 3] as u32;
            Ok(b0 + 256 * (b1 + 256 * (b2 + 256 * b3)))
        },
        TensorDtype::F8E4M3 => {
            if idx >= data.len() {
                return Err(LoadError::OutOfRange);
            }
            Ok(decode_fp8_e4m3fn(data[idx]))
        },
        TensorDtype::F8E8M0 => {
            if idx >= data.len() {
                return Err(LoadError::OutOfRange);
            }
            Ok(decode_f8_e8m0(data[idx]))
        },
        _ => Err(LoadError::UnsupportedDtype),
    }
}

/// Elements of this type can be read as numbers.
pub open spec fn is_number(dtype: TensorDtype) -> bool {
    dtype == TensorDtype::BF16 || dtype == TensorDtype::F32 || dtype == TensorDtype::F8E4M3
        || dtype == TensorDtype::F8E8M0
}

/// Every element of a tensor of numbers can be read.
pub proof fn law_elements_are_readable(t: TensorContents, idx: int)
    requires
        filled(t),
        is_number(t.0),
        0 <= idx < crate::model::deepseek::tensor::element_count(t.1),
    ensures
        scalar(t.0, t.2, idx) is Ok,
{
    let n = crate::model::deepseek::tensor::element_count(t.1);
    assert(element_bytes(t.0) == 1 || element_bytes(t.0) == 2 || element_bytes(t.0) == 4);
}

/// An E8M0 scale is decoded to its value, a bare power of two: `2^(b - 127)`.
pub proof fn law_e8m0_value(b: u8)
    requires
        0 < b < 255,
    ensures
        stands_for(e8m0_bits(b), false, 1, b - 127),
{
    vstd::arithmetic::power2::lemma2_to64();
    assert(single_mantissa(e8m0_bits(b)) == 1 * pow2(23));
}

/// Elements lie one after the other in little-endian order: a bfloat16 in two bytes
/// that become the upper half of its bits, a single-precision number in four, the
/// others in one.
pub proof fn law_elements_lie_in_order(t: TensorContents, idx: int)
    requires
        filled(t),
        0 <= idx < crate::model::deepseek::tensor::element_count(t.1),
    ensures
        t.0 == TensorDtype::F32 ==> scalar(t.0, t.2, idx) == Ok::<u32, LoadError>(
            (t.2[4 * idx] + 256 * t.2[4 * idx + 1] + 65536 * t.2[4 * idx + 2] + 16777216
                * t.2[4 * idx + 3]) as u32,
        ),
        t.0 == TensorDtype::BF16 && t.2[2 * idx + 1] % 128 < 127 ==> scalar(t.0, t.2, idx) == Ok::<
            u32,
            LoadError,
        >((65536 * t.2[2 * idx] + 16777216 * t.2[2 * idx + 1]) as u32),
        t.0 == TensorDtype::F8E4M3 ==> scalar(t.0, t.2, idx) == Ok::<u32, LoadError>(
            e4m3_bits(t.2[idx]),
        ),
        t.0 == TensorDtype::F8E8M0 ==> scalar(t.0, t.2, idx) == Ok::<u32, LoadError>(
            e8m0_bits(t.2[idx]),
        ),
{
    reveal_with_fuel(little_endian, 5);
    let n = crate::model::deepseek::tensor::element_count(t.1);
    assert(element_bytes(t.0) == 1 ==> n * element_bytes(t.0) == n);
    assert(element_bytes(t.0) == 2 ==> n * element_bytes(t.0) == 2 * n);
    assert(element_bytes(t.0) == 4 ==> n * element_bytes(t.0) == 4 * n);
    if t.0 == TensorDtype::BF16 {
        let b = (t.2[2 * idx] + 256 * t.2[2 * idx + 1]) as u16;
        assert((b as u32) << 16 == b as u32 * 65536) by (bit_vector);
        assert(b & 0x7fff == b % 0x8000) by (bit_vector);
    }
}

} // verus!
