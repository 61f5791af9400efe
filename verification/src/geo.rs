//! Plane and space vectors over fixed-point scalars.

use vstd::prelude::*;
use crate::fx::{fx_mul, fx_mul_value, FX_ONE, FX_COORD_LIMIT, FX_CORNER_LIMIT};

verus! {

/// A plane vector; both components are 16.16 fixed point.
#[derive(Clone, Copy, PartialEq, Eq, Structural, Debug)]
pub struct V2 {
    pub x: i64,
    pub y: i64,
}

/// A space vector; all components are 16.16 fixed point.
#[derive(Clone, Copy, PartialEq, Eq, Structural, Debug)]
pub struct V3 {
    pub x: i64,
    pub y: i64,
    pub z: i64,
}

impl V2 {
    pub open spec fn in_coord_range(self) -> bool {
        -FX_COORD_LIMIT <= self.x <= FX_COORD_LIMIT
            && -FX_COORD_LIMIT <= self.y <= FX_COORD_LIMIT
    }

    pub fn new(x: i64, y: i64) -> (r: V2)
        ensures
            r == (V2 { x, y }),
    {
        V2 { x, y }
    }
}

impl V3 {
    pub fn new(x: i64, y: i64, z: i64) -> (r: V3)
        ensures
            r == (V3 { x, y, z }),
    {
        V3 { x, y, z }
    }
}

/// A rotation angle, given by its precomputed sine and cosine in fixed
/// point. Evaluating the trigonometric functions is the caller's concern
/// (outside the library, in floating point); the geometry here consumes the
/// resulting pair exactly.
#[derive(Clone, Copy, PartialEq, Eq, Structural, Debug)]
pub struct Rotation {
    pub sin: i64,
    pub cos: i64,
}

impl Rotation {
    /// A sine/cosine pair never leaves `[-1, 1]`.
    pub open spec fn wf(self) -> bool {
        -FX_ONE <= self.sin <= FX_ONE && -FX_ONE <= self.cos <= FX_ONE
    }
}

/// The point `p` turned about `origin` by the angle whose sine and cosine
/// are `s` and `c`: a corner at offset `(dx, dy)` from the anchor lands at
/// `(dx·c − dy·s, dx·s + dy·c)` from the anchor, in fixed-point arithmetic.
pub open spec fn rotate_about_value(p: V2, origin: V2, s: int, c: int) -> V2 {
    let dx = p.x - origin.x;
    let dy = p.y - origin.y;
    V2 {
        x: (fx_mul_value(dx, c) - fx_mul_value(dy, s) + origin.x) as i64,
        y: (fx_mul_value(dx, s) + fx_mul_value(dy, c) + origin.y) as i64,
    }
}

/// Rotates `point` about `origin` by the angle with sine `s` and cosine `c`.
pub fn v2_rotate_about_v2(point: &V2, origin: &V2, s: i64, c: i64) -> (r: V2)
    requires
        -FX_CORNER_LIMIT <= point.x <= FX_CORNER_LIMIT,
        -FX_CORNER_LIMIT <= point.y <= FX_CORNER_LIMIT,
        -FX_CORNER_LIMIT <= origin.x <= FX_CORNER_LIMIT,
        -FX_CORNER_LIMIT <= origin.y <= FX_CORNER_LIMIT,
        -FX_ONE <= s <= FX_ONE,
        -FX_ONE <= c <= FX_ONE,
    ensures
        r == rotate_about_value(*point, *origin, s as int, c as int),
{
    let dx = point.x - origin.x;
    let dy = point.y - origin.y;
    proof {
        crate::fx::lemma_fx_mul_bound(dx as int, c as int, 2 * FX_CORNER_LIMIT as int, FX_ONE as int);
        crate::fx::lemma_fx_mul_bound(dy as int, s as int, 2 * FX_CORNER_LIMIT as int, FX_ONE as int);
        crate::fx::lemma_fx_mul_bound(dx as int, s as int, 2 * FX_CORNER_LIMIT as int, FX_ONE as int);
        crate::fx::lemma_fx_mul_bound(dy as int, c as int, 2 * FX_CORNER_LIMIT as int, FX_ONE as int);
    }
    let xnew = fx_mul(dx, c) - fx_mul(dy, s);
    let ynew = fx_mul(dx, s) + fx_mul(dy, c);
    V2 { x: xnew + origin.x, y: ynew + origin.y }
}

/// Rotation by zero radians (sine 0, cosine 1) moves no point: the result
/// equals the point itself, bit for bit.
pub proof fn lemma_rotate_zero_is_identity(p: V2, origin: V2)
    ensures
        rotate_about_value(p, origin, 0, FX_ONE as int) == p,
{
    let dx = p.x - origin.x;
    let dy = p.y - origin.y;
    crate::fx::lemma_fx_mul_one(dx);
    crate::fx::lemma_fx_mul_one(dy);
    crate::fx::lemma_fx_mul_zero(dx);
    crate::fx::lemma_fx_mul_zero(dy);
}

} // verus!
