//! Cameras and their view-projection matrices.
//!
//! Matrix entries are exact rationals: a matrix holds sixteen integer
//! numerators over one positive denominator, so composing the look-at
//! transform, the projection and the depth-range correction loses nothing.
//! The device layer divides numerators by the denominator when it uploads
//! the matrix; until then every entry is exact.

use vstd::prelude::*;
use crate::fx::{FX_ONE, FX_COORD_LIMIT};
use crate::geo::V3;

verus! {

/// Largest viewport dimension a camera accepts, in pixels.
pub const CAM_VIEWPORT_LIMIT: u32 = 8192;

/// Largest magnitude of a camera position component.
pub const CAM_POS_LIMIT: i64 = 0x1000_0000;

/// Largest magnitude of a camera near or far plane.
pub const CAM_PLANE_LIMIT: i64 = 0x400_0000;

/// Bound on the numerators and denominator of a built orthographic
/// view-projection matrix; small enough that `transform_point` cannot
/// overflow.
pub const VP_NUM_LIMIT: i128 = 0x2000_0000_0000_0000_0000_0000;

/// A viewport size in physical pixels.
#[derive(Clone, Copy, PartialEq, Eq, Structural, Debug)]
pub struct PixelSize {
    pub width: u32,
    pub height: u32,
}

/// A 4×4 matrix of exact rationals, row-major: the real entry in row `r`,
/// column `c` is `nrc / den`.
#[derive(Clone, Copy, PartialEq, Eq, Structural, Debug)]
pub struct Mat4 {
    pub n00: i128, pub n01: i128, pub n02: i128, pub n03: i128,
    pub n10: i128, pub n11: i128, pub n12: i128, pub n13: i128,
    pub n20: i128, pub n21: i128, pub n22: i128, pub n23: i128,
    pub n30: i128, pub n31: i128, pub n32: i128, pub n33: i128,
    pub den: i128,
}

/// The mathematical value of a matrix: the same sixteen numerators and the
/// denominator as unbounded integers.
pub struct Mat4Entries {
    pub n00: int, pub n01: int, pub n02: int, pub n03: int,
    pub n10: int, pub n11: int, pub n12: int, pub n13: int,
    pub n20: int, pub n21: int, pub n22: int, pub n23: int,
    pub n30: int, pub n31: int, pub n32: int, pub n33: int,
    pub den: int,
}

impl Mat4 {
    pub open spec fn value(self) -> Mat4Entries {
        Mat4Entries {
            n00: self.n00 as int, n01: self.n01 as int, n02: self.n02 as int, n03: self.n03 as int,
            n10: self.n10 as int, n11: self.n11 as int, n12: self.n12 as int, n13: self.n13 as int,
            n20: self.n20 as int, n21: self.n21 as int, n22: self.n22 as int, n23: self.n23 as int,
            n30: self.n30 as int, n31: self.n31 as int, n32: self.n32 as int, n33: self.n33 as int,
            den: self.den as int,
        }
    }
}

/// All sixteen numerators within `bound` in magnitude, and a positive
/// denominator no larger than `bound`.
pub open spec fn mat4_bounded(m: Mat4Entries, bound: int) -> bool {
    &&& -bound <= m.n00 <= bound && -bound <= m.n01 <= bound
    &&& -bound <= m.n02 <= bound && -bound <= m.n03 <= bound
    &&& -bound <= m.n10 <= bound && -bound <= m.n11 <= bound
    &&& -bound <= m.n12 <= bound && -bound <= m.n13 <= bound
    &&& -bound <= m.n20 <= bound && -bound <= m.n21 <= bound
    &&& -bound <= m.n22 <= bound && -bound <= m.n23 <= bound
    &&& -bound <= m.n30 <= bound && -bound <= m.n31 <= bound
    &&& -bound <= m.n32 <= bound && -bound <= m.n33 <= bound
    &&& 0 < m.den <= bound
}

/// The exact product of two rational matrices: numerators combine by the
/// usual row-by-column sums, denominators multiply.
pub open spec fn mat4_product(a: Mat4Entries, b: Mat4Entries) -> Mat4Entries {
    Mat4Entries {
        n00: a.n00 * b.n00 + a.n01 * b.n10 + a.n02 * b.n20 + a.n03 * b.n30,
        n01: a.n00 * b.n01 + a.n01 * b.n11 + a.n02 * b.n21 + a.n03 * b.n31,
        n02: a.n00 * b.n02 + a.n01 * b.n12 + a.n02 * b.n22 + a.n03 * b.n32,
        n03: a.n00 * b.n03 + a.n01 * b.n13 + a.n02 * b.n23 + a.n03 * b.n33,
        n10: a.n10 * b.n00 + a.n11 * b.n10 + a.n12 * b.n20 + a.n13 * b.n30,
        n11: a.n10 * b.n01 + a.n11 * b.n11 + a.n12 * b.n21 + a.n13 * b.n31,
        n12: a.n10 * b.n02 + a.n11 * b.n12 + a.n12 * b.n22 + a.n13 * b.n32,
        n13: a.n10 * b.n03 + a.n11 * b.n13 + a.n12 * b.n23 + a.n13 * b.n33,
        n20: a.n20 * b.n00 + a.n21 * b.n10 + a.n22 * b.n20 + a.n23 * b.n30,
        n21: a.n20 * b.n01 + a.n21 * b.n11 + a.n22 * b.n21 + a.n23 * b.n31,
        n22: a.n20 * b.n02 + a.n21 * b.n12 + a.n22 * b.n22 + a.n23 * b.n32,
        n23: a.n20 * b.n03 + a.n21 * b.n13 + a.n22 * b.n23 + a.n23 * b.n33,
        n30: a.n30 * b.n00 + a.n31 * b.n10 + a.n32 * b.n20 + a.n33 * b.n30,
        n31: a.n30 * b.n01 + a.n31 * b.n11 + a.n32 * b.n21 + a.n33 * b.n31,
        n32: a.n30 * b.n02 + a.n31 * b.n12 + a.n32 * b.n22 + a.n33 * b.n32,
        n33: a.n30 * b.n03 + a.n31 * b.n13 + a.n32 * b.n23 + a.n33 * b.n33,
        den: a.den * b.den,
    }
}

/// A row-by-column sum of four products is bounded by four times the
/// product of the factors' bounds.
proof fn lemma_dot4_bound(
    x0: int, y0: int, x1: int, y1: int, x2: int, y2: int, x3: int, y3: int,
    bx: int, by: int,
)
    requires
        -bx <= x0 <= bx && -bx <= x1 <= bx && -bx <= x2 <= bx && -bx <= x3 <= bx,
        -by <= y0 <= by && -by <= y1 <= by && -by <= y2 <= by && -by <= y3 <= by,
        0 <= bx,
        0 <= by,
    ensures
        -(bx * by) <= x0 * y0 <= bx * by,
        -(bx * by) <= x1 * y1 <= bx * by,
        -(bx * by) <= x2 * y2 <= bx * by,
        -(bx * by) <= x3 * y3 <= bx * by,
        -4 * bx * by <= x0 * y0 + x1 * y1 + x2 * y2 + x3 * y3 <= 4 * bx * by,
        4 * bx * by == 4 * (bx * by),
        -4 * bx * by == -(4 * (bx * by)),
{
    assert(4 * bx * by == 4 * (bx * by)) by (nonlinear_arith);
    assert(-4 * bx * by == -(4 * (bx * by))) by (nonlinear_arith);
    assert(-(bx * by) <= x0 * y0 <= bx * by) by (nonlinear_arith)
        requires -bx <= x0 <= bx, -by <= y0 <= by, 0 <= bx, 0 <= by;
    assert(-(bx * by) <= x1 * y1 <= bx * by) by (nonlinear_arith)
        requires -bx <= x1 <= bx, -by <= y1 <= by, 0 <= bx, 0 <= by;
    assert(-(bx * by) <= x2 * y2 <= bx * by) by (nonlinear_arith)
        requires -bx <= x2 <= bx, -by <= y2 <= by, 0 <= bx, 0 <= by;
    assert(-(bx * by) <= x3 * y3 <= bx * by) by (nonlinear_arith)
        requires -bx <= x3 <= bx, -by <= y3 <= by, 0 <= bx, 0 <= by;
}

/// Multiplies two rational matrices exactly. The ghost bounds `ba` and `bb`
/// keep every intermediate inside `i128`.
#[verifier::rlimit(100)]
pub fn mat4_mul(a: &Mat4, b: &Mat4, Ghost(ba): Ghost<int>, Ghost(bb): Ghost<int>) -> (r: Mat4)
    requires
        mat4_bounded(a.value(), ba),
        mat4_bounded(b.value(), bb),
        0 <= ba,
        0 <= bb,
        4 * ba * bb <= i128::MAX,
    ensures
        r.value() == mat4_product(a.value(), b.value()),
        mat4_bounded(r.value(), 4 * ba * bb),
{
    proof {
        lemma_dot4_bound(a.n00 as int, b.n00 as int, a.n01 as int, b.n10 as int,
            a.n02 as int, b.n20 as int, a.n03 as int, b.n30 as int, ba, bb);
        lemma_dot4_bound(a.n00 as int, b.n01 as int, a.n01 as int, b.n11 as int,
            a.n02 as int, b.n21 as int, a.n03 as int, b.n31 as int, ba, bb);
        lemma_dot4_bound(a.n00 as int, b.n02 as int, a.n01 as int, b.n12 as int,
            a.n02 as int, b.n22 as int, a.n03 as int, b.n32 as int, ba, bb);
        lemma_dot4_bound(a.n00 as int, b.n03 as int, a.n01 as int, b.n13 as int,
            a.n02 as int, b.n23 as int, a.n03 as int, b.n33 as int, ba, bb);
        lemma_dot4_bound(a.n10 as int, b.n00 as int, a.n11 as int, b.n10 as int,
            a.n12 as int, b.n20 as int, a.n13 as int, b.n30 as int, ba, bb);
        lemma_dot4_bound(a.n10 as int, b.n01 as int, a.n11 as int, b.n11 as int,
            a.n12 as int, b.n21 as int, a.n13 as int, b.n31 as int, ba, bb);
        lemma_dot4_bound(a.n10 as int, b.n02 as int, a.n11 as int, b.n12 as int,
            a.n12 as int, b.n22 as int, a.n13 as int, b.n32 as int, ba, bb);
        lemma_dot4_bound(a.n10 as int, b.n03 as int, a.n11 as int, b.n13 as int,
            a.n12 as int, b.n23 as int, a.n13 as int, b.n33 as int, ba, bb);
        lemma_dot4_bound(a.n20 as int, b.n00 as int, a.n21 as int, b.n10 as int,
            a.n22 as int, b.n20 as int, a.n23 as int, b.n30 as int, ba, bb);
        lemma_dot4_bound(a.n20 as int, b.n01 as int, a.n21 as int, b.n11 as int,
            a.n22 as int, b.n21 as int, a.n23 as int, b.n31 as int, ba, bb);
        lemma_dot4_bound(a.n20 as int, b.n02 as int, a.n21 as int, b.n12 as int,
            a.n22 as int, b.n22 as int, a.n23 as int, b.n32 as int, ba, bb);
        lemma_dot4_bound(a.n20 as int, b.n03 as int, a.n21 as int, b.n13 as int,
            a.n22 as int, b.n23 as int, a.n23 as int, b.n33 as int, ba, bb);
        lemma_dot4_bound(a.n30 as int, b.n00 as int, a.n31 as int, b.n10 as int,
            a.n32 as int, b.n20 as int, a.n33 as int, b.n30 as int, ba, bb);
        lemma_dot4_bound(a.n30 as int, b.n01 as int, a.n31 as int, b.n11 as int,
            a.n32 as int, b.n21 as int, a.n33 as int, b.n31 as int, ba, bb);
        lemma_dot4_bound(a.n30 as int, b.n02 as int, a.n31 as int, b.n12 as int,
            a.n32 as int, b.n22 as int, a.n33 as int, b.n32 as int, ba, bb);
        lemma_dot4_bound(a.n30 as int, b.n03 as int, a.n31 as int, b.n13 as int,
            a.n32 as int, b.n23 as int, a.n33 as int, b.n33 as int, ba, bb);
        assert(0 < (a.den as int) * (b.den as int) <= ba * bb) by (nonlinear_arith)
            requires 0 < a.den <= ba, 0 < b.den <= bb;
        assert(ba * bb <= 4 * ba * bb) by (nonlinear_arith)
            requires 0 <= ba, 0 <= bb;
    }
    Mat4 {
        n00: a.n00 * b.n00 + a.n01 * b.n10 + a.n02 * b.n20 + a.n03 * b.n30,
        n01: a.n00 * b.n01 + a.n01 * b.n11 + a.n02 * b.n21 + a.n03 * b.n31,
        n02: a.n00 * b.n02 + a.n01 * b.n12 + a.n02 * b.n22 + a.n03 * b.n32,
        n03: a.n00 * b.n03 + a.n01 * b.n13 + a.n02 * b.n23 + a.n03 * b.n33,
        n10: a.n10 * b.n00 + a.n11 * b.n10 + a.n12 * b.n20 + a.n13 * b.n30,
        n11: a.n10 * b.n01 + a.n11 * b.n11 + a.n12 * b.n21 + a.n13 * b.n31,
        n12: a.n10 * b.n02 + a.n11 * b.n12 + a.n12 * b.n22 + a.n13 * b.n32,
        n13: a.n10 * b.n03 + a.n11 * b.n13 + a.n12 * b.n23 + a.n13 * b.n33,
        n20: a.n20 * b.n00 + a.n21 * b.n10 + a.n22 * b.n20 + a.n23 * b.n30,
        n21: a.n20 * b.n01 + a.n21 * b.n11 + a.n22 * b.n21 + a.n23 * b.n31,
        n22: a.n20 * b.n02 + a.n21 * b.n12 + a.n22 * b.n22 + a.n23 * b.n32,
        n23: a.n20 * b.n03 + a.n21 * b.n13 + a.n22 * b.n23 + a.n23 * b.n33,
        n30: a.n30 * b.n00 + a.n31 * b.n10 + a.n32 * b.n20 + a.n33 * b.n30,
        n31: a.n30 * b.n01 + a.n31 * b.n11 + a.n32 * b.n21 + a.n33 * b.n31,
        n32: a.n30 * b.n02 + a.n31 * b.n12 + a.n32 * b.n22 + a.n33 * b.n32,
        n33: a.n30 * b.n03 + a.n31 * b.n13 + a.n32 * b.n23 + a.n33 * b.n33,
        den: a.den * b.den,
    }
}

/// A point carried through a view-projection matrix: exact rational clip
/// coordinates, each `x / den` and so on.
#[derive(Clone, Copy, PartialEq, Eq, Structural, Debug)]
pub struct ClipPos {
    pub x: i128,
    pub y: i128,
    pub z: i128,
    pub w: i128,
    pub den: i128,
}

/// The exact clip coordinates of the fixed-point point `(x, y, z)` under a
/// rational matrix: each component a row-by-column sum, the denominator the
/// matrix denominator scaled by the fixed-point unit.
pub open spec fn transform_value(m: Mat4Entries, p: V3) -> (int, int, int, int, int) {
    (
        m.n00 * p.x + m.n01 * p.y + m.n02 * p.z + m.n03 * FX_ONE,
        m.n10 * p.x + m.n11 * p.y + m.n12 * p.z + m.n13 * FX_ONE,
        m.n20 * p.x + m.n21 * p.y + m.n22 * p.z + m.n23 * FX_ONE,
        m.n30 * p.x + m.n31 * p.y + m.n32 * p.z + m.n33 * FX_ONE,
        m.den * FX_ONE,
    )
}

/// Applies a view-projection matrix to a fixed-point point, exactly.
pub fn transform_point(m: &Mat4, p: &V3) -> (r: ClipPos)
    requires
        mat4_bounded(m.value(), VP_NUM_LIMIT as int),
        -FX_COORD_LIMIT <= p.x <= FX_COORD_LIMIT,
        -FX_COORD_LIMIT <= p.y <= FX_COORD_LIMIT,
        -FX_COORD_LIMIT <= p.z <= FX_COORD_LIMIT,
    ensures
        (r.x as int, r.y as int, r.z as int, r.w as int, r.den as int)
            == transform_value(m.value(), *p),
        r.den > 0,
{
    proof {
        lemma_dot4_bound(m.n00 as int, p.x as int, m.n01 as int, p.y as int,
            m.n02 as int, p.z as int, m.n03 as int, FX_ONE as int,
            VP_NUM_LIMIT as int, FX_COORD_LIMIT as int);
        lemma_dot4_bound(m.n10 as int, p.x as int, m.n11 as int, p.y as int,
            m.n12 as int, p.z as int, m.n13 as int, FX_ONE as int,
            VP_NUM_LIMIT as int, FX_COORD_LIMIT as int);
        lemma_dot4_bound(m.n20 as int, p.x as int, m.n21 as int, p.y as int,
            m.n22 as int, p.z as int, m.n23 as int, FX_ONE as int,
            VP_NUM_LIMIT as int, FX_COORD_LIMIT as int);
        lemma_dot4_bound(m.n30 as int, p.x as int, m.n31 as int, p.y as int,
            m.n32 as int, p.z as int, m.n33 as int, FX_ONE as int,
            VP_NUM_LIMIT as int, FX_COORD_LIMIT as int);
        assert(0 < (m.den as int) * (FX_ONE as int) <= VP_NUM_LIMIT * (FX_ONE as int))
            by (nonlinear_arith)
            requires 0 < m.den <= VP_NUM_LIMIT;
    }
    let px = p.x as i128;
    let py = p.y as i128;
    let pz = p.z as i128;
    let unit = FX_ONE as i128;
    ClipPos {
        x: m.n00 * px + m.n01 * py + m.n02 * pz + m.n03 * unit,
        y: m.n10 * px + m.n11 * py + m.n12 * pz + m.n13 * unit,
        z: m.n20 * px + m.n21 * py + m.n22 * pz + m.n23 * unit,
        w: m.n30 * px + m.n31 * py + m.n32 * pz + m.n33 * unit,
        den: m.den * unit,
    }
}

/// The fixed matrix reconciling the projection's depth range with the
/// device's: x and y pass through, depth is halved and shifted to `[0, 1]`.
pub open spec fn correction_entries() -> Mat4Entries {
    Mat4Entries {
        n00: 2, n01: 0, n02: 0, n03: 0,
        n10: 0, n11: 2, n12: 0, n13: 0,
        n20: 0, n21: 0, n22: 1, n23: 1,
        n30: 0, n31: 0, n32: 0, n33: 2,
        den: 2,
    }
}

/// Builds the depth-range correction matrix.
pub fn opengl_to_wgpu_matrix() -> (r: Mat4)
    ensures
        r.value() == correction_entries(),
        mat4_bounded(r.value(), 2),
{
    Mat4 {
        n00: 2, n01: 0, n02: 0, n03: 0,
        n10: 0, n11: 2, n12: 0, n13: 0,
        n20: 0, n21: 0, n22: 1, n23: 1,
        n30: 0, n31: 0, n32: 0, n33: 2,
        den: 2,
    }
}

} // verus!

use crate::fx::FX_CORNER_LIMIT;

verus! {

/// Bound on the numerators of a look-at matrix.
pub const LOOK_AT_BOUND: i128 = 0x4000_0000;

/// Bound on the numerators of an orthographic projection matrix.
pub const ORTHO_BOUND: i128 = 0x40_0000_0000_0000;

/// `v` is a unit vector along one of the coordinate axes.
pub open spec fn axis_unit(v: V3) -> bool {
    ||| ((v.x == FX_ONE || v.x == -FX_ONE) && v.y == 0 && v.z == 0)
    ||| (v.x == 0 && (v.y == FX_ONE || v.y == -FX_ONE) && v.z == 0)
    ||| (v.x == 0 && v.y == 0 && (v.z == FX_ONE || v.z == -FX_ONE))
}

/// The product of an axis-unit component `c` (zero or ±one) with a value:
/// the value itself, its negation, or zero.
pub open spec fn axis_term(c: int, v: int) -> int {
    if c == FX_ONE {
        v
    } else if c == -FX_ONE {
        -v
    } else {
        0
    }
}

/// The fixed-point dot product of an axis-unit vector with any vector;
/// exact, since each component of `u` is zero or ±one.
pub open spec fn axis_dot(u: V3, v: V3) -> int {
    axis_term(u.x as int, v.x as int) + axis_term(u.y as int, v.y as int)
        + axis_term(u.z as int, v.z as int)
}

/// The fixed-point cross product of two axis-unit vectors; exact.
pub open spec fn axis_cross(a: V3, b: V3) -> V3 {
    V3 {
        x: (axis_term(a.y as int, b.z as int) - axis_term(a.z as int, b.y as int)) as i64,
        y: (axis_term(a.z as int, b.x as int) - axis_term(a.x as int, b.z as int)) as i64,
        z: (axis_term(a.x as int, b.y as int) - axis_term(a.y as int, b.x as int)) as i64,
    }
}

/// The cross product of two orthogonal axis-unit vectors is again an
/// axis-unit vector, orthogonal to both.
pub proof fn lemma_axis_cross_unit(a: V3, b: V3)
    requires
        axis_unit(a),
        axis_unit(b),
        axis_dot(a, b) == 0,
    ensures
        axis_unit(axis_cross(a, b)),
        axis_dot(axis_cross(a, b), a) == 0,
        axis_dot(axis_cross(a, b), b) == 0,
{
}

/// Multiplies one axis-unit component with a value.
fn axis_term_mul(c: i64, v: i64) -> (r: i64)
    requires
        c == FX_ONE || c == -FX_ONE || c == 0,
        -FX_CORNER_LIMIT <= v <= FX_CORNER_LIMIT,
    ensures
        r as int == axis_term(c as int, v as int),
{
    if c == FX_ONE {
        v
    } else if c == -FX_ONE {
        -v
    } else {
        0
    }
}

/// Computes the dot product of an axis-unit vector with a bounded vector.
fn axis_dot_mul(u: &V3, v: &V3) -> (r: i64)
    requires
        axis_unit(*u),
        -FX_CORNER_LIMIT <= v.x <= FX_CORNER_LIMIT,
        -FX_CORNER_LIMIT <= v.y <= FX_CORNER_LIMIT,
        -FX_CORNER_LIMIT <= v.z <= FX_CORNER_LIMIT,
    ensures
        r as int == axis_dot(*u, *v),
{
    axis_term_mul(u.x, v.x) + axis_term_mul(u.y, v.y) + axis_term_mul(u.z, v.z)
}

/// Computes the cross product of two axis-unit vectors.
fn axis_cross_mul(a: &V3, b: &V3) -> (r: V3)
    requires
        axis_unit(*a),
        axis_unit(*b),
    ensures
        r == axis_cross(*a, *b),
{
    V3 {
        x: axis_term_mul(a.y, b.z) - axis_term_mul(a.z, b.y),
        y: axis_term_mul(a.z, b.x) - axis_term_mul(a.x, b.z),
        z: axis_term_mul(a.x, b.y) - axis_term_mul(a.y, b.x),
    }
}

/// The look-at view matrix for a camera at `pos` looking along the
/// axis-unit direction `dir` with the axis-unit up vector `up`: the rows are
/// the side, up and negated forward axes, the last column carries the
/// translation onto those axes.
pub open spec fn look_at_entries(pos: V3, dir: V3, up: V3) -> Mat4Entries {
    let f = dir;
    let s = axis_cross(f, up);
    let u = axis_cross(s, f);
    Mat4Entries {
        n00: s.x as int, n01: s.y as int, n02: s.z as int, n03: -axis_dot(s, pos),
        n10: u.x as int, n11: u.y as int, n12: u.z as int, n13: -axis_dot(u, pos),
        n20: -(f.x as int), n21: -(f.y as int), n22: -(f.z as int), n23: axis_dot(f, pos),
        n30: 0, n31: 0, n32: 0, n33: FX_ONE as int,
        den: FX_ONE as int,
    }
}

/// Builds the look-at view matrix.
pub fn look_at_matrix(pos: &V3, dir: &V3, up: &V3) -> (r: Mat4)
    requires
        axis_unit(*dir),
        axis_unit(*up),
        axis_dot(*dir, *up) == 0,
        -CAM_POS_LIMIT <= pos.x <= CAM_POS_LIMIT,
        -CAM_POS_LIMIT <= pos.y <= CAM_POS_LIMIT,
        -CAM_POS_LIMIT <= pos.z <= CAM_POS_LIMIT,
    ensures
        r.value() == look_at_entries(*pos, *dir, *up),
        mat4_bounded(r.value(), LOOK_AT_BOUND as int),
{
    let f = *dir;
    proof {
        lemma_axis_cross_unit(f, *up);
    }
    let s = axis_cross_mul(&f, up);
    proof {
        lemma_axis_cross_unit(s, f);
    }
    let u = axis_cross_mul(&s, &f);
    let ts = axis_dot_mul(&s, pos);
    let tu = axis_dot_mul(&u, pos);
    let tf = axis_dot_mul(&f, pos);
    Mat4 {
        n00: s.x as i128, n01: s.y as i128, n02: s.z as i128, n03: -(ts as i128),
        n10: u.x as i128, n11: u.y as i128, n12: u.z as i128, n13: -(tu as i128),
        n20: -(f.x as i128), n21: -(f.y as i128), n22: -(f.z as i128), n23: tf as i128,
        n30: 0, n31: 0, n32: 0, n33: FX_ONE as i128,
        den: FX_ONE as i128,
    }
}

/// The orthographic projection over the pixel rectangle `[0, w] × [0, h]`
/// (top-left origin) and the depth range `[zn, zf]`, as one rational matrix
/// with denominator `w·h·(zf − zn)`.
pub open spec fn ortho_entries(w: int, h: int, zn: int, zf: int) -> Mat4Entries {
    let d = zf - zn;
    Mat4Entries {
        n00: 2 * (h * d), n01: 0, n02: 0, n03: -(w * h * d),
        n10: 0, n11: -(2 * (w * d)), n12: 0, n13: w * h * d,
        n20: 0, n21: 0, n22: -(2 * (FX_ONE as int) * (w * h)), n23: -((w * h) * (zf + zn)),
        n30: 0, n31: 0, n32: 0, n33: w * h * d,
        den: w * h * d,
    }
}

proof fn lemma_prod_bound(x: int, y: int, bx: int, by: int)
    requires
        -bx <= x <= bx,
        -by <= y <= by,
        0 <= bx,
        0 <= by,
    ensures
        -(bx * by) <= x * y <= bx * by,
{
    assert(-(bx * by) <= x * y <= bx * by) by (nonlinear_arith)
        requires -bx <= x <= bx, -by <= y <= by, 0 <= bx, 0 <= by;
}

/// Builds the orthographic projection matrix.
pub fn ortho_matrix(w: u32, h: u32, zn: i64, zf: i64) -> (r: Mat4)
    requires
        1 <= w <= CAM_VIEWPORT_LIMIT,
        1 <= h <= CAM_VIEWPORT_LIMIT,
        -CAM_PLANE_LIMIT <= zn < zf <= CAM_PLANE_LIMIT,
    ensures
        r.value() == ortho_entries(w as int, h as int, zn as int, zf as int),
        mat4_bounded(r.value(), ORTHO_BOUND as int),
{
    let wi = w as i128;
    let hi = h as i128;
    let d = (zf as i128) - (zn as i128);
    let zs = (zf as i128) + (zn as i128);
    proof {
        lemma_prod_bound(wi as int, hi as int, 0x2000, 0x2000);
        lemma_prod_bound((wi * hi) as int, d as int, 0x400_0000, 0x800_0000);
        lemma_prod_bound((wi * hi) as int, zs as int, 0x400_0000, 0x800_0000);
        lemma_prod_bound(hi as int, d as int, 0x2000, 0x800_0000);
        lemma_prod_bound(wi as int, d as int, 0x2000, 0x800_0000);
        lemma_prod_bound((2 * (FX_ONE as i128)) as int, (wi * hi) as int, 0x20000, 0x400_0000);
        assert(1 <= wi * hi) by (nonlinear_arith)
            requires 1 <= wi, 1 <= hi;
        assert(1 <= (wi * hi) * d) by (nonlinear_arith)
            requires 1 <= wi * hi, 1 <= d;
    }
    let whd: i128 = wi * hi * d;
    Mat4 {
        n00: 2 * (hi * d), n01: 0, n02: 0, n03: -whd,
        n10: 0, n11: -(2 * (wi * d)), n12: 0, n13: whd,
        n20: 0, n21: 0, n22: -(2 * (FX_ONE as i128) * (wi * hi)), n23: -((wi * hi) * zs),
        n30: 0, n31: 0, n32: 0, n33: whd,
        den: whd,
    }
}

} // verus!

verus! {

/// An orthographic camera: maps the pixel rectangle of its viewport,
/// looked at from `pos` along `dir`, to normalized device coordinates.
#[derive(Clone, Copy, PartialEq, Eq, Structural, Debug)]
pub struct OrthographicCamera {
    pub pos: V3,
    pub dir: V3,
    pub up: V3,
    pub size: PixelSize,
    pub znear: i64,
    pub zfar: i64,
}

impl OrthographicCamera {
    /// Direction and up are orthogonal axis-unit vectors; the position and
    /// the depth planes are small enough for exact matrix arithmetic.
    pub open spec fn wf(self) -> bool {
        &&& axis_unit(self.dir)
        &&& axis_unit(self.up)
        &&& axis_dot(self.dir, self.up) == 0
        &&& -CAM_POS_LIMIT <= self.pos.x <= CAM_POS_LIMIT
        &&& -CAM_POS_LIMIT <= self.pos.y <= CAM_POS_LIMIT
        &&& -CAM_POS_LIMIT <= self.pos.z <= CAM_POS_LIMIT
        &&& 1 <= self.size.width <= CAM_VIEWPORT_LIMIT
        &&& 1 <= self.size.height <= CAM_VIEWPORT_LIMIT
        &&& -CAM_PLANE_LIMIT <= self.znear < self.zfar <= CAM_PLANE_LIMIT
    }

    /// The view-projection matrix of this camera: the look-at transform,
    /// the orthographic projection, and the depth-range correction,
    /// composed exactly.
    pub open spec fn view_projection_entries(self) -> Mat4Entries {
        mat4_product(
            mat4_product(
                correction_entries(),
                ortho_entries(
                    self.size.width as int, self.size.height as int,
                    self.znear as int, self.zfar as int),
            ),
            look_at_entries(self.pos, self.dir, self.up),
        )
    }

    /// A camera looking along the positive z axis at the pixel rectangle
    /// `[0, width] × [0, height]`, from one unit behind the plane.
    pub fn new(width: u32, height: u32) -> (r: OrthographicCamera)
        requires
            1 <= width <= CAM_VIEWPORT_LIMIT,
            1 <= height <= CAM_VIEWPORT_LIMIT,
        ensures
            r.wf(),
            r == (OrthographicCamera {
                pos: V3 { x: 0, y: 0, z: -FX_ONE as i64 },
                dir: V3 { x: 0, y: 0, z: FX_ONE as i64 },
                up: V3 { x: 0, y: FX_ONE as i64, z: 0 },
                size: PixelSize { width, height },
                znear: -FX_ONE as i64,
                zfar: FX_ONE as i64,
            }),
    {
        OrthographicCamera {
            pos: V3 { x: 0, y: 0, z: -FX_ONE },
            dir: V3 { x: 0, y: 0, z: FX_ONE },
            up: V3 { x: 0, y: FX_ONE, z: 0 },
            size: PixelSize { width, height },
            znear: -FX_ONE,
            zfar: FX_ONE,
        }
    }

    /// Moves the camera in its local x/y plane.
    pub fn translate(&mut self, delta_x: i64, delta_y: i64)
        requires
            -CAM_POS_LIMIT <= old(self).pos.x + delta_x <= CAM_POS_LIMIT,
            -CAM_POS_LIMIT <= old(self).pos.y + delta_y <= CAM_POS_LIMIT,
        ensures
            final(self).pos.x == old(self).pos.x + delta_x,
            final(self).pos.y == old(self).pos.y + delta_y,
            final(self).pos.z == old(self).pos.z,
            final(self).dir == old(self).dir,
            final(self).up == old(self).up,
            final(self).size == old(self).size,
            final(self).znear == old(self).znear,
            final(self).zfar == old(self).zfar,
    {
        self.pos = V3 { x: self.pos.x + delta_x, y: self.pos.y + delta_y, z: self.pos.z };
    }

    /// Builds the view-projection matrix from the current camera fields.
    pub fn build_view_projection_matrix(&self) -> (r: Mat4)
        requires
            self.wf(),
        ensures
            r.value() == self.view_projection_entries(),
            mat4_bounded(r.value(), VP_NUM_LIMIT as int),
    {
        let correction = opengl_to_wgpu_matrix();
        let proj = ortho_matrix(self.size.width, self.size.height, self.znear, self.zfar);
        let view = look_at_matrix(&self.pos, &self.dir, &self.up);
        let cp = mat4_mul(&correction, &proj, Ghost(2), Ghost(ORTHO_BOUND as int));
        mat4_mul(&cp, &view, Ghost(8 * ORTHO_BOUND as int), Ghost(LOOK_AT_BOUND as int))
    }
}

/// A perspective camera, the alternative strategy for non-2D use; not
/// exercised by the batching path. `aspect` is the viewport's width over
/// its height and `focal` the cotangent of half the vertical field of view,
/// both in fixed point; evaluating the cotangent is the caller's concern.
#[derive(Clone, Copy, PartialEq, Eq, Structural, Debug)]
pub struct PerspectiveCamera {
    pub pos: V3,
    pub dir: V3,
    pub up: V3,
    pub aspect: i64,
    pub focal: i64,
    pub znear: i64,
    pub zfar: i64,
}

/// Bound on the parameters of a perspective camera.
pub const PERSP_PARAM_LIMIT: i64 = 0x8_0000;

/// Bound on the depth planes of a perspective camera.
pub const PERSP_PLANE_LIMIT: i64 = 0x100_0000;

/// The perspective projection with the given fixed-point aspect ratio,
/// focal factor and depth planes, as one rational matrix.
pub open spec fn perspective_entries(a: int, focal: int, zn: int, zf: int) -> Mat4Entries {
    let d = zf - zn;
    let unit = FX_ONE as int;
    Mat4Entries {
        n00: focal * (d * (unit * unit)), n01: 0, n02: 0, n03: 0,
        n10: 0, n11: focal * ((a * d) * unit), n12: 0, n13: 0,
        n20: 0, n21: 0, n22: -((zf + zn) * (a * (unit * unit))),
        n23: -(2 * ((zf * zn) * (a * unit))),
        n30: 0, n31: 0, n32: -(a * (d * (unit * unit))), n33: 0,
        den: a * (d * (unit * unit)),
    }
}

impl PerspectiveCamera {
    pub open spec fn wf(self) -> bool {
        &&& axis_unit(self.dir)
        &&& axis_unit(self.up)
        &&& axis_dot(self.dir, self.up) == 0
        &&& -CAM_POS_LIMIT <= self.pos.x <= CAM_POS_LIMIT
        &&& -CAM_POS_LIMIT <= self.pos.y <= CAM_POS_LIMIT
        &&& -CAM_POS_LIMIT <= self.pos.z <= CAM_POS_LIMIT
        &&& 1 <= self.aspect <= PERSP_PARAM_LIMIT
        &&& 1 <= self.focal <= PERSP_PARAM_LIMIT
        &&& 0 < self.znear < self.zfar <= PERSP_PLANE_LIMIT
    }

    /// The view-projection matrix of this camera: look-at, perspective
    /// projection and depth-range correction, composed exactly.
    pub open spec fn view_projection_entries(self) -> Mat4Entries {
        mat4_product(
            mat4_product(
                correction_entries(),
                perspective_entries(
                    self.aspect as int, self.focal as int,
                    self.znear as int, self.zfar as int),
            ),
            look_at_entries(self.pos, self.dir, self.up),
        )
    }

    /// Builds the view-projection matrix from the current camera fields.
    pub fn build_view_projection_matrix(&self) -> (r: Mat4)
        requires
            self.wf(),
        ensures
            r.value() == self.view_projection_entries(),
    {
        let correction = opengl_to_wgpu_matrix();
        let proj = perspective_matrix(self.aspect, self.focal, self.znear, self.zfar);
        let view = look_at_matrix(&self.pos, &self.dir, &self.up);
        let cp = mat4_mul(&correction, &proj, Ghost(2), Ghost(PERSP_BOUND as int));
        mat4_mul(&cp, &view, Ghost(8 * PERSP_BOUND as int), Ghost(LOOK_AT_BOUND as int))
    }
}

/// Bound on the numerators of a perspective projection matrix.
pub const PERSP_BOUND: i128 = 0x200_0000_0000_0000_0000_0000;

/// Builds the perspective projection matrix.
pub fn perspective_matrix(a: i64, focal: i64, zn: i64, zf: i64) -> (r: Mat4)
    requires
        1 <= a <= PERSP_PARAM_LIMIT,
        1 <= focal <= PERSP_PARAM_LIMIT,
        0 < zn < zf <= PERSP_PLANE_LIMIT,
    ensures
        r.value() == perspective_entries(a as int, focal as int, zn as int, zf as int),
        mat4_bounded(r.value(), PERSP_BOUND as int),
{
    let ai = a as i128;
    let fo = focal as i128;
    let zni = zn as i128;
    let zfi = zf as i128;
    let d = zfi - zni;
    let unit = FX_ONE as i128;
    proof {
        assert((unit as int) * (unit as int) == 0x1_0000_0000) by (nonlinear_arith)
            requires unit == 0x1_0000;
        lemma_prod_bound(d as int, (unit * unit) as int, 0x100_0000, 0x1_0000_0000);
        lemma_prod_bound(fo as int, (d * (unit * unit)) as int, 0x8_0000, 0x100_0000_0000_0000);
        lemma_prod_bound(ai as int, d as int, 0x8_0000, 0x100_0000);
        lemma_prod_bound((ai * d) as int, unit as int, 0x800_0000_0000, 0x1_0000);
        lemma_prod_bound(fo as int, ((ai * d) * unit) as int, 0x8_0000, 0x800_0000_0000_0000);
        lemma_prod_bound(ai as int, (unit * unit) as int, 0x8_0000, 0x1_0000_0000);
        lemma_prod_bound((zfi + zni) as int, (ai * (unit * unit)) as int,
            0x200_0000, 0x8_0000_0000_0000);
        lemma_prod_bound(zfi as int, zni as int, 0x100_0000, 0x100_0000);
        lemma_prod_bound(ai as int, unit as int, 0x8_0000, 0x1_0000);
        lemma_prod_bound((zfi * zni) as int, (ai * unit) as int,
            0x1_0000_0000_0000, 0x8_0000_0000);
        lemma_prod_bound(ai as int, (d * (unit * unit)) as int, 0x8_0000, 0x100_0000_0000_0000);
        assert(1 <= d * (unit * unit)) by (nonlinear_arith)
            requires 1 <= d, 1 <= unit * unit;
        assert(1 <= ai * (d * (unit * unit))) by (nonlinear_arith)
            requires 1 <= ai, 1 <= d * (unit * unit);
    }
    Mat4 {
        n00: fo * (d * (unit * unit)), n01: 0, n02: 0, n03: 0,
        n10: 0, n11: fo * ((ai * d) * unit), n12: 0, n13: 0,
        n20: 0, n21: 0, n22: -((zfi + zni) * (ai * (unit * unit))),
        n23: -(2 * ((zfi * zni) * (ai * unit))),
        n30: 0, n31: 0, n32: -(ai * (d * (unit * unit))), n33: 0,
        den: ai * (d * (unit * unit)),
    }
}

} // verus!

verus! {

/// For a camera in the standard 2D attitude (looking down the negative z
/// axis, y up), the point at the center of its viewport rectangle projects
/// exactly onto the origin of normalized device coordinates: the x and y
/// clip numerators vanish, whatever the point's depth.
pub proof fn lemma_viewport_center_projects_to_origin(cam: OrthographicCamera, p: V3)
    requires
        cam.wf(),
        cam.dir == (V3 { x: 0, y: 0, z: (-FX_ONE) as i64 }),
        cam.up == (V3 { x: 0, y: FX_ONE as i64, z: 0 }),
        2 * (p.x - cam.pos.x) == (cam.size.width as int) * (FX_ONE as int),
        2 * (p.y - cam.pos.y) == (cam.size.height as int) * (FX_ONE as int),
    ensures
        transform_value(cam.view_projection_entries(), p).0 == 0,
        transform_value(cam.view_projection_entries(), p).1 == 0,
{
    let one = FX_ONE as int;
    let w = cam.size.width as int;
    let h = cam.size.height as int;
    let d = cam.zfar - cam.znear;
    let ex = cam.pos.x as int;
    let ey = cam.pos.y as int;
    let px = p.x as int;
    let py = p.y as int;

    let v = look_at_entries(cam.pos, cam.dir, cam.up);
    assert(axis_cross(cam.dir, cam.up) == (V3 { x: FX_ONE as i64, y: 0, z: 0 }));
    assert(axis_cross(V3 { x: FX_ONE as i64, y: 0, z: 0 }, cam.dir)
        == (V3 { x: 0, y: FX_ONE as i64, z: 0 }));
    assert(v.n00 == one && v.n01 == 0 && v.n02 == 0 && v.n03 == -ex);
    assert(v.n10 == 0 && v.n11 == one && v.n12 == 0 && v.n13 == -ey);
    assert(v.n30 == 0 && v.n31 == 0 && v.n32 == 0 && v.n33 == one);

    let o = ortho_entries(w, h, cam.znear as int, cam.zfar as int);
    let g = correction_entries();
    let gp = mat4_product(g, o);
    assert(gp.n00 == 2 * (2 * (h * d)) && gp.n01 == 0 && gp.n02 == 0
        && gp.n03 == 2 * (-(w * h * d)));
    assert(gp.n10 == 0 && gp.n11 == 2 * (-(2 * (w * d))) && gp.n12 == 0
        && gp.n13 == 2 * (w * h * d));

    let vp = mat4_product(gp, v);
    assert(vp.n00 == gp.n00 * one && vp.n01 == 0 && vp.n02 == 0);
    assert(vp.n03 == gp.n00 * (-ex) + gp.n03 * one);
    assert(vp.n10 == 0 && vp.n11 == gp.n11 * one && vp.n12 == 0);
    assert(vp.n13 == gp.n11 * (-ey) + gp.n13 * one);
    assert(cam.view_projection_entries() == vp);

    let x_num = transform_value(vp, p).0;
    assert(x_num == vp.n00 * px + vp.n03 * one);
    assert((2 * (2 * (h * d)) * one) * px
        + ((2 * (2 * (h * d))) * (-ex) + (2 * (-(w * h * d))) * one) * one == 0)
        by (nonlinear_arith)
        requires
            2 * (px - ex) == w * one,
    ;

    let y_num = transform_value(vp, p).1;
    assert(y_num == vp.n11 * py + vp.n13 * one);
    assert((2 * (-(2 * (w * d))) * one) * py
        + ((2 * (-(2 * (w * d)))) * (-ey) + (2 * (w * h * d)) * one) * one == 0)
        by (nonlinear_arith)
        requires
            2 * (py - ey) == h * one,
    ;
}

} // verus!
