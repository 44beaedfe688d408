//! Q16.16 fixed-point scalars.
//!
//! Every coordinate, color channel and matrix entry in this crate is a
//! Q16.16 fixed-point number held in an `i32`: the value it denotes is the
//! raw integer divided by 65536. Arithmetic is exact and saturating (an
//! out-of-range result is clamped to the `i32` bounds), so every operation
//! is total and deterministic: the same operands always give the same
//! result, which is what makes tessellation reproducible.

use vstd::prelude::*;

verus! {

/// The raw representation of one whole unit (2^16).
pub const FX_UNIT: i32 = 65536;

/// The raw representation of one half.
pub const FX_HALF: i32 = 32768;

/// The raw representation of two pi (the closest Q16.16 value to 2 * 3.14159...).
pub const FX_TWO_PI: i32 = 411775;

/// Absolute value of a mathematical integer.
pub open spec fn abs_int(v: int) -> int {
    if v < 0 {
        -v
    } else {
        v
    }
}

/// Clamp a mathematical integer into the `i32` range.
pub open spec fn fx_clamp(v: int) -> int {
    if v > i32::MAX as int {
        i32::MAX as int
    } else if v < i32::MIN as int {
        i32::MIN as int
    } else {
        v
    }
}

/// Quotient of `p` by `d`, truncated toward zero (the rounding that the
/// magnitude-based executable code produces).
pub open spec fn div_trunc(p: int, d: int) -> int
    recommends
        d != 0,
{
    if (p < 0) == (d < 0) {
        abs_int(p) / abs_int(d)
    } else {
        -(abs_int(p) / abs_int(d))
    }
}

/// Saturating fixed-point addition.
pub open spec fn fx_add_spec(a: int, b: int) -> int {
    fx_clamp(a + b)
}

/// Saturating fixed-point subtraction.
pub open spec fn fx_sub_spec(a: int, b: int) -> int {
    fx_clamp(a - b)
}

/// Saturating fixed-point negation.
pub open spec fn fx_neg_spec(a: int) -> int {
    fx_clamp(-a)
}

/// Saturating fixed-point multiplication: the product scaled back down by
/// one unit, truncated toward zero.
pub open spec fn fx_mul_spec(a: int, b: int) -> int {
    fx_clamp(div_trunc(a * b, 65536))
}

/// Saturating fixed-point division: the quotient scaled up by one unit,
/// truncated toward zero. Division by zero saturates in the direction of
/// the dividend's sign.
pub open spec fn fx_div_spec(a: int, b: int) -> int {
    if b == 0 {
        if a >= 0 {
            i32::MAX as int
        } else {
            i32::MIN as int
        }
    } else {
        fx_clamp(div_trunc(a * 65536, b))
    }
}

/// A whole number taken into fixed point.
pub open spec fn fx_from_int_spec(n: int) -> int {
    fx_clamp(n * 65536)
}

/// Saturating fixed-point addition on raw values.
pub fn fx_add(a: i32, b: i32) -> (r: i32)
    ensures
        r as int == fx_add_spec(a as int, b as int),
{
    let s: i64 = a as i64 + b as i64;
    if s > i32::MAX as i64 {
        i32::MAX
    } else if s < i32::MIN as i64 {
        i32::MIN
    } else {
        s as i32
    }
}

/// Saturating fixed-point subtraction on raw values.
pub fn fx_sub(a: i32, b: i32) -> (r: i32)
    ensures
        r as int == fx_sub_spec(a as int, b as int),
{
    let s: i64 = a as i64 - b as i64;
    if s > i32::MAX as i64 {
        i32::MAX
    } else if s < i32::MIN as i64 {
        i32::MIN
    } else {
        s as i32
    }
}

/// Saturating fixed-point negation on raw values.
pub fn fx_neg(a: i32) -> (r: i32)
    ensures
        r as int == fx_neg_spec(a as int),
{
    let s: i64 = -(a as i64);
    if s > i32::MAX as i64 {
        i32::MAX
    } else {
        s as i32
    }
}

/// The magnitudes of two factors multiply to the magnitude of the product.
proof fn lemma_abs_mul(x: int, y: int)
    ensures
        abs_int(x) * abs_int(y) == abs_int(x * y),
{
    if x >= 0 && y >= 0 {
        assert(x * y >= 0) by (nonlinear_arith)
            requires
                x >= 0,
                y >= 0,
        ;
    } else if x < 0 && y < 0 {
        assert(x * y >= 0 && (-x) * (-y) == x * y) by (nonlinear_arith)
            requires
                x < 0,
                y < 0,
        ;
    } else if x < 0 {
        assert(x * y <= 0 && (-x) * y == -(x * y)) by (nonlinear_arith)
            requires
                x < 0,
                y >= 0,
        ;
    } else {
        assert(x * y <= 0 && x * (-y) == -(x * y)) by (nonlinear_arith)
            requires
                x >= 0,
                y < 0,
        ;
    }
}

/// Magnitude of a raw value, widened so that `i32::MIN` is representable.
fn fx_abs_mag(a: i32) -> (m: u64)
    ensures
        m as int == abs_int(a as int),
{
    if a < 0 {
        (-(a as i64)) as u64
    } else {
        a as u64
    }
}

/// Clamp a nonnegative magnitude, negated when `neg` holds, into `i32`.
fn fx_clamp_signed(neg: bool, q: u64) -> (r: i32)
    requires
        q as int <= 0x8000_0000_0000_0000,
    ensures
        neg ==> r as int == fx_clamp(-(q as int)),
        !neg ==> r as int == fx_clamp(q as int),
{
    if neg {
        if q > 2147483648u64 {
            i32::MIN
        } else {
            (-(q as i64)) as i32
        }
    } else {
        if q > 2147483647u64 {
            i32::MAX
        } else {
            q as i32
        }
    }
}

/// Saturating fixed-point multiplication on raw values.
pub fn fx_mul(a: i32, b: i32) -> (r: i32)
    ensures
        r as int == fx_mul_spec(a as int, b as int),
{
    let neg: bool = (a < 0) != (b < 0);
    let ma: u64 = fx_abs_mag(a);
    let mb: u64 = fx_abs_mag(b);
    proof {
        assert(ma as int * mb as int <= 0x8000_0000 * 0x8000_0000) by (nonlinear_arith)
            requires
                0 <= ma as int <= 0x8000_0000,
                0 <= mb as int <= 0x8000_0000,
        ;
        lemma_abs_mul(a as int, b as int);
    }
    let p: u64 = ma * mb;
    let q: u64 = p / 65536u64;
    proof {
        assert(q as int == abs_int(a as int * b as int) / 65536);
        if a as int * b as int == 0 {
            assert(div_trunc(a as int * b as int, 65536) == 0);
            assert(q == 0);
        }
        if !neg {
            assert(a as int * b as int >= 0) by (nonlinear_arith)
                requires
                    ((a as int) < 0) == ((b as int) < 0),
            ;
        } else {
            assert(a as int * b as int <= 0) by (nonlinear_arith)
                requires
                    ((a as int) < 0) != ((b as int) < 0),
            ;
        }
    }
    fx_clamp_signed(neg, q)
}

/// Saturating fixed-point division on raw values.
pub fn fx_div(a: i32, b: i32) -> (r: i32)
    ensures
        r as int == fx_div_spec(a as int, b as int),
{
    if b == 0 {
        if a >= 0 {
            i32::MAX
        } else {
            i32::MIN
        }
    } else {
        let neg: bool = (a < 0) != (b < 0);
        let ma: u64 = fx_abs_mag(a);
        let mb: u64 = fx_abs_mag(b);
        let p: u64 = ma * 65536u64;
        let q: u64 = p / mb;
        proof {
            lemma_abs_mul(a as int, 65536);
            assert(abs_int(a as int * 65536) == abs_int(a as int) * 65536);
            assert(q as int == abs_int(a as int * 65536) / abs_int(b as int));
            if a as int * 65536 == 0 {
                assert(div_trunc(a as int * 65536, b as int) == 0);
                assert(q == 0);
            }
            assert(q as int <= p as int);
        }
        fx_clamp_signed(neg, q)
    }
}

/// Saturating conversion of a whole number into fixed point.
pub fn fx_from_int(n: i32) -> (r: i32)
    ensures
        r as int == fx_from_int_spec(n as int),
{
    let s: i64 = (n as i64) * 65536;
    if s > i32::MAX as i64 {
        i32::MAX
    } else if s < i32::MIN as i64 {
        i32::MIN
    } else {
        s as i32
    }
}

/// What `cordic::sin` returns for a Q16.16 angle in radians: a pure
/// function of the angle alone.
pub uninterp spec fn fx_sin(angle: int) -> int;

/// What `cordic::cos` returns for a Q16.16 angle in radians: a pure
/// function of the angle alone.
pub uninterp spec fn fx_cos(angle: int) -> int;

/// Relies on cordic::sin over fixed::types::I16F16: a deterministic
/// CORDIC evaluation of the sine of an angle given in radians, depending
/// on the angle bits alone.
#[verifier::external_body]
pub(crate) fn fx_sin_raw(angle: i32) -> (r: i32)
    ensures
        r as int == fx_sin(angle as int),
{
    cordic::sin(fixed::types::I16F16::from_bits(angle)).to_bits()
}

/// Relies on cordic::cos over fixed::types::I16F16: a deterministic
/// CORDIC evaluation of the cosine of an angle given in radians, depending
/// on the angle bits alone.
#[verifier::external_body]
pub(crate) fn fx_cos_raw(angle: i32) -> (r: i32)
    ensures
        r as int == fx_cos(angle as int),
{
    cordic::cos(fixed::types::I16F16::from_bits(angle)).to_bits()
}

} // verus!
