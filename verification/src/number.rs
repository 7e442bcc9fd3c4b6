use vstd::prelude::*;
use vstd::arithmetic::power2::{lemma2_to64, lemma2_to64_rest, lemma_pow2_adds, lemma_pow2_pos, lemma_pow2_strictly_increases, pow2};

use crate::error::LunifyError;
use crate::serialization::{signed_from_word, word_from_signed};

verus! {

/// A Lua number. Lua stores numbers either integrally or as IEEE 754
/// floating-point values; a float is carried here as its 64-bit bit
/// pattern, so that widening, narrowing and integral checks are all plain
/// integer arithmetic on the pattern.
#[derive(Clone, Copy, Debug, PartialEq, Eq, Structural, Hash)]
pub enum Number {
    /// Lua non-integral number type, as the bit pattern of an IEEE 754
    /// binary64 value.
    Float(u64),
    /// Lua integral number type.
    Integer(i64),
}

/// The index of the highest set bit, with `msb(0) == 0`.
pub open spec fn msb(x: u64) -> nat
    decreases x,
{
    if x < 2 {
        0
    } else {
        msb(x / 2) + 1
    }
}

/// For positive `x`, `x` lies between the powers of two that `msb` names.
pub proof fn lemma_msb_bounds(x: u64)
    requires
        x >= 1,
    ensures
        pow2(msb(x)) <= x < pow2(msb(x) + 1),
        msb(x) <= 63,
    decreases x,
{
    lemma2_to64();
        lemma2_to64_rest();
    if x < 2 {
        assert(pow2(0) == 1 && pow2(1) == 2);
    } else {
        lemma_msb_bounds(x / 2);
        lemma_pow2_adds(msb(x / 2), 1);
        lemma_pow2_adds(msb(x / 2) + 1, 1);
        if msb(x) > 63 {
            assert(msb(x / 2) == 63 || msb(x / 2) > 63);
            if msb(x / 2) == 63 {
                assert(pow2(63) <= x / 2) by {
                    assert(pow2(msb(x / 2)) <= x / 2);
                }
                assert(x / 2 <= u64::MAX / 2);
                assert(false);
            }
            assert(false);
        }
    }
}

/// Round a quotient to the nearest integer, ties to even, given the
/// remainder and half the divisor.
pub open spec fn round_nearest_even(quotient: int, remainder: int, half: int) -> int {
    if remainder > half || (remainder == half && quotient % 2 == 1) {
        quotient + 1
    } else {
        quotient
    }
}

/// The IEEE 754 binary64 bit pattern that stores the same value as a given
/// binary32 bit pattern. The conversion is exact; NaN payloads keep their
/// top bits.
pub open spec fn f64_bits_from_f32_bits(x: u32) -> u64 {
    let s = (x / 0x80000000) as int;
    let e = ((x / 0x800000) % 0x100) as int;
    let f = (x % 0x800000) as int;
    if e == 0xFF {
        (s * 0x8000000000000000 + 0x7FF0000000000000 + f * 0x20000000) as u64
    } else if e == 0 {
        if f == 0 {
            (s * 0x8000000000000000) as u64
        } else {
            let k = msb(f as u64) as int;
            (s * 0x8000000000000000 + (874 + k) * 0x10000000000000 + (f - pow2(k as nat)) * pow2(
                (52 - k) as nat,
            )) as u64
        }
    } else {
        (s * 0x8000000000000000 + (e + 896) * 0x10000000000000 + f * 0x20000000) as u64
    }
}

/// The IEEE 754 binary32 bit pattern nearest (ties to even) to a given
/// binary64 bit pattern. Values beyond the binary32 range become
/// infinities; NaN stays a quiet NaN with its top payload bits kept.
pub open spec fn f32_bits_from_f64_bits(x: u64) -> u32 {
    let s = (x / 0x8000000000000000) as int;
    let e = ((x / 0x10000000000000) % 0x800) as int;
    let f = (x % 0x10000000000000) as int;
    if e == 0x7FF {
        if f == 0 {
            (s * 0x80000000 + 0x7F800000) as u32
        } else {
            let payload = f / 0x20000000;
            let quiet = if payload >= 0x400000 {
                payload
            } else {
                payload + 0x400000
            };
            (s * 0x80000000 + 0x7F800000 + quiet) as u32
        }
    } else if e == 0 {
        (s * 0x80000000) as u32
    } else if e >= 897 {
        let q = round_nearest_even(f / 0x20000000, f % 0x20000000, 0x10000000);
        let e32 = e - 896 + if q == 0x800000 {
            1int
        } else {
            0int
        };
        let mantissa = if q == 0x800000 {
            0int
        } else {
            q
        };
        if e32 >= 0xFF {
            (s * 0x80000000 + 0x7F800000) as u32
        } else {
            (s * 0x80000000 + e32 * 0x800000 + mantissa) as u32
        }
    } else {
        let shift = (926 - e) as nat;
        if shift > 63 {
            (s * 0x80000000) as u32
        } else {
            let m = 0x10000000000000 + f;
            let q = round_nearest_even(m / pow2(shift) as int, m % pow2(shift) as int, pow2((shift - 1) as nat) as int);
            (s * 0x80000000 + q) as u32
        }
    }
}

/// The result of reading the `value == value.round()` test and the `as i64`
/// conversion off a binary64 bit pattern: the integer the float stores, the
/// saturated bound for values out of the 64-bit range, or
/// `FloatPrecisionLoss` for fractional values and NaN.
pub open spec fn f64_bits_to_integer(x: u64) -> Result<i64, LunifyError> {
    let s = (x / 0x8000000000000000) as int;
    let e = ((x / 0x10000000000000) % 0x800) as int;
    let f = (x % 0x10000000000000) as int;
    if e == 0x7FF {
        if f != 0 {
            Err(LunifyError::FloatPrecisionLoss)
        } else if s == 1 {
            Ok(i64::MIN)
        } else {
            Ok(i64::MAX)
        }
    } else if e < 1023 {
        if e == 0 && f == 0 {
            Ok(0)
        } else {
            Err(LunifyError::FloatPrecisionLoss)
        }
    } else if e <= 1074 {
        // The unbiased exponent is below 52: the value is integral exactly
        // when the fractional mantissa bits are zero.
        let low = pow2((1075 - e) as nat) as int;
        if f % low != 0 {
            Err(LunifyError::FloatPrecisionLoss)
        } else {
            let magnitude = (0x10000000000000 + f) / low;
            if s == 1 {
                Ok((-magnitude) as i64)
            } else {
                Ok(magnitude as i64)
            }
        }
    } else if e < 1086 {
        let magnitude = (0x10000000000000 + f) * pow2((e - 1075) as nat);
        if s == 1 {
            Ok((-magnitude) as i64)
        } else {
            Ok(magnitude as i64)
        }
    } else if s == 1 {
        // Either exactly -(2^63), or saturated to it.
        Ok(i64::MIN)
    } else {
        Ok(i64::MAX)
    }
}

/// The IEEE 754 binary64 bit pattern nearest (ties to even) to a 64-bit
/// integer.
pub open spec fn f64_bits_from_integer(value: i64) -> u64 {
    if value == 0 {
        0
    } else {
        let s: int = if value < 0 {
            1
        } else {
            0
        };
        let magnitude: int = if value < 0 {
            -(value as int)
        } else {
            value as int
        };
        let k = msb(magnitude as u64) as int;
        if k <= 52 {
            (s * 0x8000000000000000 + (1023 + k) * 0x10000000000000 + (magnitude - pow2(k as nat)) * pow2(
                (52 - k) as nat,
            )) as u64
        } else {
            let shift = (k - 52) as nat;
            let q = round_nearest_even(
                magnitude / pow2(shift) as int,
                magnitude % pow2(shift) as int,
                pow2((shift - 1) as nat) as int,
            );
            if q == 0x20000000000000 {
                (s * 0x8000000000000000 + (1024 + k) * 0x10000000000000) as u64
            } else {
                (s * 0x8000000000000000 + (1023 + k) * 0x10000000000000 + (q - 0x10000000000000)) as u64
            }
        }
    }
}

/// The number stored by a word of `count` bytes under the format's number
/// interpretation.
pub open spec fn number_from_word(raw: u64, count: int, is_integral: bool) -> Number {
    if is_integral {
        Number::Integer(signed_from_word(raw, count))
    } else if count == 4 {
        Number::Float(f64_bits_from_f32_bits(raw as u32))
    } else {
        Number::Float(raw)
    }
}

/// The word of `count` bytes that stores a number under the format's number
/// interpretation, or the error when the number does not fit it.
pub open spec fn number_to_word(number: Number, count: int, is_integral: bool) -> Result<u64, LunifyError> {
    if is_integral {
        match number.spec_as_integer() {
            Ok(value) => Ok(word_from_signed(value, count)),
            Err(error) => Err(error),
        }
    } else {
        match number.spec_as_float() {
            Ok(bits) => if count == 4 {
                Ok(f32_bits_from_f64_bits(bits) as u64)
            } else {
                Ok(bits)
            },
            Err(error) => Err(error),
        }
    }
}

impl Number {
    /// The integer this number stores, when it stores one.
    pub open spec fn spec_as_integer(self) -> Result<i64, LunifyError> {
        match self {
            Number::Integer(value) => Ok(value),
            Number::Float(bits) => f64_bits_to_integer(bits),
        }
    }

    /// The binary64 bit pattern this number rounds to, when one exists.
    pub open spec fn spec_as_float(self) -> Result<u64, LunifyError> {
        match self {
            Number::Float(bits) => Ok(bits),
            Number::Integer(value) => if value < i64::MAX {
                Ok(f64_bits_from_integer(value))
            } else {
                Err(LunifyError::IntegerOverflow)
            },
        }
    }

    /// Interpret a word of `count` bytes under the format's number
    /// interpretation.
    pub fn from_word(raw: u64, count: u8, is_integral: bool) -> (result: Number)
        requires
            count == 4 || count == 8,
            count == 4 ==> raw < 0x100000000,
        ensures
            result == number_from_word(raw, count as int, is_integral),
    {
        if is_integral {
            Number::Integer(sign_extend_word(raw, count))
        } else if count == 4 {
            Number::Float(f32_bits_to_f64_bits(raw as u32))
        } else {
            Number::Float(raw)
        }
    }

    /// The word of `count` bytes that stores this number, or the error when
    /// the number does not fit the interpretation.
    pub fn to_word(self, count: u8, is_integral: bool) -> (result: Result<u64, LunifyError>)
        requires
            count == 4 || count == 8,
        ensures
            result == number_to_word(self, count as int, is_integral),
    {
        if is_integral {
            let value = self.as_integer()?;
            Ok(truncate_signed(value, count))
        } else {
            let bits = self.as_float()?;
            if count == 4 {
                Ok(f64_bits_to_f32_bits(bits) as u64)
            } else {
                Ok(bits)
            }
        }
    }

    /// The integer this number stores. A float is accepted when it stores an
    /// integral value (saturated to the 64-bit range); a fractional float or
    /// NaN fails with `FloatPrecisionLoss`.
    pub fn as_integer(self) -> (result: Result<i64, LunifyError>)
        ensures
            result == self.spec_as_integer(),
    {
        match self {
            Number::Integer(value) => Ok(value),
            Number::Float(bits) => f64_bits_as_integer(bits),
        }
    }

    /// The binary64 bit pattern this number stores or rounds to. An integer
    /// of `i64::MAX` fails with `IntegerOverflow`.
    pub fn as_float(self) -> (result: Result<u64, LunifyError>)
        ensures
            result == self.spec_as_float(),
    {
        match self {
            Number::Float(bits) => Ok(bits),
            Number::Integer(value) => {
                if value < i64::MAX {
                    Ok(f64_bits_of_integer(value))
                } else {
                    Err(LunifyError::IntegerOverflow)
                }
            },
        }
    }
}

/// Exponent of two as a machine word.
fn pow2_u64(exponent: u64) -> (result: u64)
    requires
        exponent <= 63,
    ensures
        result == pow2(exponent as nat),
{
    let mut result: u64 = 1;
    let mut index: u64 = 0;
    proof {
        lemma2_to64();
        lemma2_to64_rest();
        assert(pow2(0) == 1);
    }
    while index < exponent
        invariant
            index <= exponent <= 63,
            result == pow2(index as nat),
        decreases exponent - index,
    {
        proof {
            lemma_pow2_adds(index as nat, 1);
            lemma2_to64();
        lemma2_to64_rest();
            if index + 1 <= 63 {
                lemma_pow2_strictly_increases((index + 1) as nat, 64);
            }
        }
        result = result * 2;
        index += 1;
    }
    result
}

/// The index of the highest set bit of a machine word, with 0 for 0.
fn msb_u64(x: u64) -> (result: u64)
    ensures
        result == msb(x),
{
    let mut remainder = x;
    let mut count: u64 = 0;
    proof {
        lemma_msb_le_63(x);
    }
    while remainder >= 2
        invariant
            msb(x) == count + msb(remainder),
            count <= 64,
        decreases remainder,
    {
        proof {
            assert(msb(remainder) == msb(remainder / 2) + 1);
            lemma_msb_le_63(x);
        }
        remainder = remainder / 2;
        count += 1;
    }
    count
}

proof fn lemma_msb_le_63(x: u64)
    ensures
        msb(x) <= 63,
{
    if x >= 1 {
        lemma_msb_bounds(x);
    }
}

/// Sign-extend a word of `count` bytes to a 64-bit signed integer.
pub(crate) fn sign_extend_word(raw: u64, count: u8) -> (result: i64)
    requires
        count == 4 || count == 8,
        count == 4 ==> raw < 0x100000000,
    ensures
        result == signed_from_word(raw, count as int),
{
    if count == 4 {
        if raw < 0x80000000 {
            raw as i64
        } else {
            (raw as i64) - 0x100000000
        }
    } else {
        proof {
            if raw >= 0x8000000000000000 {
                assert(raw as i64 == raw - 0x10000000000000000) by (bit_vector)
                    requires raw >= 0x8000000000000000u64;
            }
        }
        raw as i64
    }
}

/// Truncate a signed integer to a two's complement word of `count` bytes.
pub(crate) fn truncate_signed(value: i64, count: u8) -> (result: u64)
    requires
        count == 4 || count == 8,
    ensures
        result == word_from_signed(value, count as int),
{
    if count == 4 {
        let word = value as u32;
        proof {
            assert(value as u32 == value as int % 0x100000000) by (bit_vector);
        }
        word as u64
    } else {
        let word = value as u64;
        proof {
            assert(value as u64 == value as int % 0x10000000000000000) by (bit_vector);
        }
        word
    }
}

/// A power of two is at most a later power of two.
proof fn lemma_pow2_le(e1: nat, e2: nat)
    requires
        e1 <= e2,
    ensures
        pow2(e1) <= pow2(e2),
{
    if e1 < e2 {
        lemma_pow2_strictly_increases(e1, e2);
    }
}

/// Dividing by a positive number never grows a value.
proof fn lemma_div_le(m: u64, d: u64)
    requires
        d >= 1,
    ensures
        m / d <= m,
{
    assert(m / d <= m) by (nonlinear_arith)
        requires d >= 1,
    ;
}

/// A quotient is below a bound when the dividend is below the bound times
/// the divisor.
proof fn lemma_div_lt(m: u64, d: u64, bound: int)
    requires
        d >= 1,
        m < bound * d,
    ensures
        ((m / d) as int) < bound,
{
    assert((m as int) / (d as int) < bound) by (nonlinear_arith)
        requires d >= 1, m < bound * d,
    ;
}

/// A quotient stays at or above a bound when the dividend is at least the
/// bound times the divisor.
proof fn lemma_div_ge(m: u64, d: u64, bound: int)
    requires
        d >= 1,
        m >= bound * d,
        bound >= 0,
    ensures
        ((m / d) as int) >= bound,
{
    assert((m as int) / (d as int) >= bound) by (nonlinear_arith)
        requires d >= 1, m >= bound * d, bound >= 0,
    ;
}

/// A product of values below powers of two stays below the power of two of
/// the summed exponents.
proof fn lemma_mul_pow2_bound(a: int, e1: nat, e2: nat)
    requires
        0 <= a < pow2(e1),
    ensures
        a * pow2(e2) < pow2(e1 + e2),
        a * pow2(e2) >= 0,
{
    lemma_pow2_pos(e2);
    lemma_pow2_adds(e1, e2);
    assert(a * pow2(e2) < pow2(e1) * pow2(e2)) by (nonlinear_arith)
        requires a < pow2(e1), pow2(e2) > 0,
    ;
    assert(a * pow2(e2) >= 0) by (nonlinear_arith)
        requires a >= 0, pow2(e2) > 0,
    ;
}

/// Widen a binary32 bit pattern to the binary64 bit pattern of the same
/// value.
#[verifier::rlimit(50)]
pub(crate) fn f32_bits_to_f64_bits(x: u32) -> (result: u64)
    ensures
        result == f64_bits_from_f32_bits(x),
{
    let s = (x / 0x80000000) as u64;
    let e = ((x / 0x800000) % 0x100) as u64;
    let f = (x % 0x800000) as u64;

    if e == 0xFF {
        s * 0x8000000000000000 + 0x7FF0000000000000 + f * 0x20000000
    } else if e == 0 {
        if f == 0 {
            s * 0x8000000000000000
        } else {
            proof {
                lemma_msb_bounds(f);
                lemma2_to64();
        lemma2_to64_rest();
                if msb(f) >= 23 {
                    lemma_pow2_le(23, msb(f));
                    assert(false);
                }
                lemma_pow2_adds(msb(f), 1);
                lemma_mul_pow2_bound(f - pow2(msb(f)), msb(f), (52 - msb(f) as int) as nat);
                lemma_pow2_adds(msb(f), (52 - msb(f) as int) as nat);
            }
            let k = msb_u64(f);
            let low = pow2_u64(k);
            let frac = (f - low) * pow2_u64(52 - k);
            proof {
                assert(frac < pow2(52));
            }
            s * 0x8000000000000000 + (874 + k) * 0x10000000000000 + frac
        }
    } else {
        s * 0x8000000000000000 + (e + 896) * 0x10000000000000 + f * 0x20000000
    }
}

/// Narrow a binary64 bit pattern to the nearest binary32 bit pattern, ties
/// to even.
#[verifier::rlimit(50)]
fn f64_bits_to_f32_bits(x: u64) -> (result: u32)
    ensures
        result == f32_bits_from_f64_bits(x),
{
    let s = (x / 0x8000000000000000) as u32;
    let e = (x / 0x10000000000000) % 0x800;
    let f = x % 0x10000000000000;

    if e == 0x7FF {
        if f == 0 {
            s * 0x80000000 + 0x7F800000
        } else {
            let payload = (f / 0x20000000) as u32;
            let quiet = if payload >= 0x400000 {
                payload
            } else {
                payload + 0x400000
            };
            s * 0x80000000 + 0x7F800000 + quiet
        }
    } else if e == 0 {
        s * 0x80000000
    } else if e >= 897 {
        let mut q = (f / 0x20000000) as u32;
        let remainder = f % 0x20000000;
        if remainder > 0x10000000 || (remainder == 0x10000000 && q % 2 == 1) {
            q = q + 1;
        }
        let mut e32 = (e - 896) as u32;
        let mut mantissa = q;
        if q == 0x800000 {
            e32 = e32 + 1;
            mantissa = 0;
        }
        if e32 >= 0xFF {
            s * 0x80000000 + 0x7F800000
        } else {
            s * 0x80000000 + e32 * 0x800000 + mantissa
        }
    } else {
        let shift = 926 - e;
        if shift > 63 {
            s * 0x80000000
        } else {
            proof {
                lemma_pow2_pos(shift as nat);
                lemma_pow2_pos((shift - 1) as nat);
                lemma_pow2_adds((shift - 1) as nat, 1);
                lemma2_to64();
        lemma2_to64_rest();
            }
            let m = 0x10000000000000 + f;
            let divisor = pow2_u64(shift);
            let half = pow2_u64(shift - 1);
            let mut q = m / divisor;
            proof {
                // Before rounding the quotient is strictly below 2^23,
                // because the value is strictly below 2^53 and the shift is
                // at least 30.
                assert(m < pow2(53));
                if shift <= 53 {
                    lemma_pow2_adds((53 - shift as int) as nat, shift as nat);
                    lemma_pow2_le((53 - shift as int) as nat, 23);
                    lemma_div_lt(m, divisor, pow2((53 - shift as int) as nat) as int);
                } else {
                    lemma_pow2_le(53, shift as nat);
                    lemma_div_lt(m, divisor, 1);
                }
                assert(q < pow2(23));
            }
            let remainder = m % divisor;
            if remainder > half || (remainder == half && q % 2 == 1) {
                q = q + 1;
            }
            s * 0x80000000 + (q as u32)
        }
    }
}

/// The `value == value.round()` test and `as i64` conversion on a binary64
/// bit pattern.
#[verifier::rlimit(50)]
fn f64_bits_as_integer(x: u64) -> (result: Result<i64, LunifyError>)
    ensures
        result == f64_bits_to_integer(x),
{
    let s = x / 0x8000000000000000;
    let e = (x / 0x10000000000000) % 0x800;
    let f = x % 0x10000000000000;

    if e == 0x7FF {
        if f != 0 {
            Err(LunifyError::FloatPrecisionLoss)
        } else if s == 1 {
            Ok(i64::MIN)
        } else {
            Ok(i64::MAX)
        }
    } else if e < 1023 {
        if e == 0 && f == 0 {
            Ok(0)
        } else {
            Err(LunifyError::FloatPrecisionLoss)
        }
    } else if e <= 1074 {
        proof {
            lemma_pow2_pos((1075 - e) as nat);
        }
        let low = pow2_u64(1075 - e);
        if f % low != 0 {
            Err(LunifyError::FloatPrecisionLoss)
        } else {
            let magnitude = (0x10000000000000 + f) / low;
            proof {
                lemma_div_le((0x10000000000000 + f) as u64, low);
            }
            if s == 1 {
                Ok(-(magnitude as i64))
            } else {
                Ok(magnitude as i64)
            }
        }
    } else if e < 1086 {
        proof {
            lemma2_to64();
        lemma2_to64_rest();
            lemma_mul_pow2_bound(0x10000000000000 + f, 53, (e - 1075) as nat);
            lemma_pow2_le((53 + e - 1075) as nat, 63);
        }
        let factor = pow2_u64(e - 1075);
        let magnitude = (0x10000000000000 + f) * factor;
        if s == 1 {
            Ok(-(magnitude as i64))
        } else {
            Ok(magnitude as i64)
        }
    } else if s == 1 {
        Ok(i64::MIN)
    } else {
        Ok(i64::MAX)
    }
}

/// The binary64 bit pattern nearest (ties to even) to a 64-bit integer.
#[verifier::rlimit(50)]
fn f64_bits_of_integer(value: i64) -> (result: u64)
    ensures
        result == f64_bits_from_integer(value),
{
    if value == 0 {
        return 0;
    }

    let s: u64 = if value < 0 {
        1
    } else {
        0
    };
    let magnitude: u64 = if value < 0 {
        if value == i64::MIN {
            0x8000000000000000
        } else {
            (-value) as u64
        }
    } else {
        value as u64
    };
    proof {
        assert(magnitude >= 1);
        lemma_msb_bounds(magnitude);
    }

    let k = msb_u64(magnitude);
    if k <= 52 {
        proof {
            lemma2_to64();
        lemma2_to64_rest();
            lemma_pow2_adds(msb(magnitude), 1);
            lemma_mul_pow2_bound(magnitude - pow2(msb(magnitude)), msb(magnitude), (52 - msb(magnitude) as int) as nat);
            lemma_pow2_adds(msb(magnitude), (52 - msb(magnitude) as int) as nat);
        }
        let low = pow2_u64(k);
        let frac = (magnitude - low) * pow2_u64(52 - k);
        proof {
            assert(frac < pow2(52));
        }
        s * 0x8000000000000000 + (1023 + k) * 0x10000000000000 + frac
    } else {
        let shift = k - 52;
        proof {
            lemma_pow2_pos(shift as nat);
            lemma_pow2_pos((shift - 1) as nat);
            lemma_pow2_adds((shift - 1) as nat, 1);
            lemma2_to64();
        lemma2_to64_rest();
        }
        let divisor = pow2_u64(shift);
        let half = pow2_u64(shift - 1);
        let mut q = magnitude / divisor;
        proof {
            // The quotient keeps exactly 53 bits before rounding.
            lemma_pow2_adds(53, shift as nat);
            lemma_pow2_adds(52, shift as nat);
            lemma_pow2_adds(msb(magnitude), 1);
            assert(magnitude < pow2(53) * pow2(shift as nat));
            lemma_div_lt(magnitude, divisor, pow2(53) as int);
            assert(magnitude >= pow2(52) * pow2(shift as nat));
            lemma_div_ge(magnitude, divisor, pow2(52) as int);
            assert(pow2(52) <= q < pow2(53));
        }
        let remainder = magnitude % divisor;
        if remainder > half || (remainder == half && q % 2 == 1) {
            q = q + 1;
        }
        if q == 0x20000000000000 {
            s * 0x8000000000000000 + (1024 + k) * 0x10000000000000
        } else {
            s * 0x8000000000000000 + (1023 + k) * 0x10000000000000 + (q - 0x10000000000000)
        }
    }
}

} // verus!
