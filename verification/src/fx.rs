//! Fixed-point scalars.
//!
//! All geometry in this crate is carried out on signed 16.16 fixed-point
//! numbers: an `i64` raw value stands for the real number `raw / FX_ONE`.
//! Multiplication rounds toward zero, exactly as stated by `fx_mul_value`,
//! so every geometric result is pinned down to the last bit.

use vstd::prelude::*;

verus! {

/// The raw value of the fixed-point number one.
pub const FX_ONE: i64 = 65536;

/// Largest magnitude accepted for a coordinate (position, size or source
/// rectangle component) handed to the geometry routines: the bound keeps
/// every intermediate of corner and rotation arithmetic inside `i64`.
pub const FX_COORD_LIMIT: i64 = 0x1_0000_0000;

/// Largest magnitude a computed quad corner can reach before rotation: a
/// coordinate, a pivot offset and a size, each within `FX_COORD_LIMIT`.
pub const FX_CORNER_LIMIT: i64 = 0x3_0000_0000;

/// Division truncated toward zero (the rounding of Rust's `/`),
/// for a positive divisor.
pub open spec fn fx_trunc_div(n: int, d: int) -> int
    recommends
        d > 0,
{
    if n >= 0 {
        n / d
    } else {
        -((-n) / d)
    }
}

/// The exact value of a fixed-point product: the integer product scaled
/// back down, rounded toward zero.
pub open spec fn fx_mul_value(a: int, b: int) -> int {
    fx_trunc_div(a * b, FX_ONE as int)
}

/// The exact value of a fixed-point quantity divided by a whole number.
pub open spec fn fx_div_int_value(a: int, d: int) -> int
    recommends
        d > 0,
{
    fx_trunc_div(a, d)
}

proof fn lemma_abs_mul(a: int, b: int)
    ensures
        vstd::math::abs(a) * vstd::math::abs(b) == vstd::math::abs(a * b),
{
    assert(vstd::math::abs(a) * vstd::math::abs(b) == vstd::math::abs(a * b)) by (nonlinear_arith);
}

/// Fixed-point multiplication, rounding toward zero.
pub fn fx_mul(a: i64, b: i64) -> (r: i64)
    requires
        i64::MIN <= fx_mul_value(a as int, b as int) <= i64::MAX,
    ensures
        r as int == fx_mul_value(a as int, b as int),
{
    let negative: bool = (a < 0) != (b < 0);
    let aa: u128 = if a < 0 { (-(a as i128)) as u128 } else { a as u128 };
    let bb: u128 = if b < 0 { (-(b as i128)) as u128 } else { b as u128 };
    proof {
        assert(aa * bb <= 0x8000_0000_0000_0000u128 * 0x8000_0000_0000_0000u128)
            by (nonlinear_arith)
            requires
                aa <= 0x8000_0000_0000_0000u128,
                bb <= 0x8000_0000_0000_0000u128,
        ;
    }
    let p: u128 = aa * bb;
    proof {
        lemma_abs_mul(a as int, b as int);
        assert(p == vstd::math::abs((a as int) * (b as int)));
    }
    let q: u128 = p / 65536;
    proof {
        assert(q as int == (vstd::math::abs((a as int) * (b as int)) as int) / (FX_ONE as int));
        if (a as int) * (b as int) >= 0 {
            assert((a as int) * (b as int) >= 0 && negative ==> (a as int) * (b as int) == 0)
                by (nonlinear_arith)
                requires
                    negative == ((a < 0) != (b < 0)),
            ;
            assert(!negative || q == 0);
            assert(q as int == fx_mul_value(a as int, b as int));
        } else {
            assert((a as int) * (b as int) < 0 ==> negative) by (nonlinear_arith)
                requires
                    negative == ((a < 0) != (b < 0)),
            ;
            assert(negative);
            assert(-(q as int) == fx_mul_value(a as int, b as int));
        }
    }
    if negative {
        if q == 0 {
            0
        } else {
            assert(0 - (q as int) >= i64::MIN);
            -((q - 1) as i64) - 1
        }
    } else {
        q as i64
    }
}

/// Fixed-point value divided by a positive whole number, rounding toward
/// zero; used to turn pixel coordinates into normalized texture coordinates.
pub fn fx_div_int(a: i64, d: i64) -> (r: i64)
    requires
        d > 0,
    ensures
        r as int == fx_div_int_value(a as int, d as int),
{
    let negative: bool = a < 0;
    let aa: u64 = if a < 0 { (-(a as i128)) as u64 } else { a as u64 };
    let q: u64 = aa / (d as u64);
    proof {
        assert(q as int == (vstd::math::abs(a as int) as int) / (d as int));
        assert(q <= aa) by {
            vstd::arithmetic::div_mod::lemma_div_nonincreasing(aa as int, d as int);
        }
    }
    if negative {
        if q == 0 {
            0
        } else {
            -((q - 1) as i64) - 1
        }
    } else {
        q as i64
    }
}

/// Multiplying a fixed-point value by one is exact.
pub proof fn lemma_fx_mul_one(a: int)
    ensures
        fx_mul_value(a, FX_ONE as int) == a,
{
    if a >= 0 {
        assert(a * (FX_ONE as int) >= 0) by (nonlinear_arith)
            requires
                a >= 0,
        ;
        assert((a * (FX_ONE as int)) / (FX_ONE as int) == a) by {
            vstd::arithmetic::div_mod::lemma_div_by_multiple(a, FX_ONE as int);
        }
    } else {
        assert(a * (FX_ONE as int) < 0) by (nonlinear_arith)
            requires
                a < 0,
        ;
        assert(-(a * (FX_ONE as int)) == (-a) * (FX_ONE as int)) by (nonlinear_arith);
        assert(((-a) * (FX_ONE as int)) / (FX_ONE as int) == -a) by {
            vstd::arithmetic::div_mod::lemma_div_by_multiple(-a, FX_ONE as int);
        }
    }
}

/// Multiplying a fixed-point value by zero gives zero.
pub proof fn lemma_fx_mul_zero(a: int)
    ensures
        fx_mul_value(a, 0) == 0,
{
    assert(a * 0 == 0) by (nonlinear_arith);
}

/// The magnitude of a fixed-point product is bounded by the product of the
/// factors' bounds, scaled down.
pub proof fn lemma_fx_mul_bound(a: int, b: int, bound_a: int, bound_b: int)
    requires
        vstd::math::abs(a) <= bound_a,
        vstd::math::abs(b) <= bound_b,
        0 <= bound_a,
        0 <= bound_b,
    ensures
        vstd::math::abs(fx_mul_value(a, b)) <= bound_a * bound_b / (FX_ONE as int),
{
    assert(vstd::math::abs(a * b) <= bound_a * bound_b) by (nonlinear_arith)
        requires
            vstd::math::abs(a) <= bound_a,
            vstd::math::abs(b) <= bound_b,
            0 <= bound_a,
            0 <= bound_b,
    ;
    lemma_abs_mul(a, b);
    vstd::arithmetic::div_mod::lemma_div_is_ordered(
        vstd::math::abs(a * b) as int, bound_a * bound_b, FX_ONE as int);
}

} // verus!
