//! Quad geometry: vertices, corner placement, texture coordinates.

use vstd::prelude::*;
use crate::fx::{fx_div_int, fx_div_int_value, fx_mul, fx_mul_value, FX_ONE, FX_COORD_LIMIT};
use crate::geo::{rotate_about_value, v2_rotate_about_v2, Rotation, V2};
use crate::texture::Texture;

verus! {

/// One vertex of a quad: a fixed-point position, fixed-point texture
/// coordinates, and the texture slot the shading stage samples from.
/// `-1` is a sentinel slot never produced by the batcher.
#[derive(Clone, Copy, PartialEq, Eq, Structural, Debug)]
pub struct Vertex2D {
    pub pos: V2,
    pub tex_coords: V2,
    pub tex_idx: i32,
}

impl Vertex2D {
    pub fn empty() -> (r: Vertex2D)
        ensures
            r == Vertex2D::default_value(),
    {
        Vertex2D { pos: V2 { x: 0, y: 0 }, tex_coords: V2 { x: 0, y: 0 }, tex_idx: -1i32 }
    }

    /// The value the staging buffer is filled with before any quad is drawn.
    pub open spec fn default_value() -> Vertex2D {
        Vertex2D { pos: V2 { x: 0, y: 0 }, tex_coords: V2 { x: 0, y: 0 }, tex_idx: -1i32 }
    }
}

/// One draw request, as the batcher sees it after the texture record has
/// been looked up: everything the geometry of a quad depends on.
#[derive(Clone, Copy, PartialEq, Eq, Debug)]
pub struct DrawCall {
    pub pos: V2,
    pub size: V2,
    pub texture: Texture,
    pub src_pos: V2,
    pub src_size: V2,
    pub origin: V2,
    pub rotation: Option<Rotation>,
}

impl DrawCall {
    /// Coordinates within the fixed-point range, a normalized pivot, a sine
    /// and cosine within `[-1, 1]`, and a well-formed texture record.
    pub open spec fn wf(self) -> bool {
        &&& self.pos.in_coord_range()
        &&& self.size.in_coord_range()
        &&& self.src_pos.in_coord_range()
        &&& self.src_size.in_coord_range()
        &&& 0 <= self.origin.x <= FX_ONE
        &&& 0 <= self.origin.y <= FX_ONE
        &&& match self.rotation {
            Some(rot) => rot.wf(),
            None => true,
        }
        &&& self.texture.wf()
    }
}

/// Pixel coordinates scaled component-wise by a texture's pixel dimensions,
/// giving normalized texture coordinates.
pub open spec fn tex_coord_value(coords: V2, width: int, height: int) -> V2
    recommends
        width >= 1,
        height >= 1,
{
    V2 {
        x: fx_div_int_value(coords.x as int, width) as i64,
        y: fx_div_int_value(coords.y as int, height) as i64,
    }
}

/// Maps a pixel-space point on `texture` to normalized `[0, 1]` texture
/// coordinates by dividing component-wise by the texture's dimensions.
pub fn pixel_to_tex_coords(coords: &V2, texture: &Texture) -> (r: V2)
    requires
        texture.wf(),
    ensures
        r == tex_coord_value(*coords, texture.width as int, texture.height as int),
{
    V2 {
        x: fx_div_int(coords.x, texture.width as i64),
        y: fx_div_int(coords.y, texture.height as i64),
    }
}

/// The four corners of an unrotated quad, from its position, size and
/// normalized pivot: left = x − origin.x·size.x, right = left + size.x,
/// top = y − origin.y·size.y, bottom = top + size.y. Order: top-left,
/// top-right, bottom-right, bottom-left.
pub open spec fn corner_values(pos: V2, size: V2, origin: V2) -> Seq<V2> {
    let l = (pos.x - fx_mul_value(origin.x as int, size.x as int)) as i64;
    let t = (pos.y - fx_mul_value(origin.y as int, size.y as int)) as i64;
    let r = (l + size.x) as i64;
    let b = (t + size.y) as i64;
    seq![
        V2 { x: l, y: t },
        V2 { x: r, y: t },
        V2 { x: r, y: b },
        V2 { x: l, y: b },
    ]
}

/// A corner after the optional rotation about the quad's anchor.
pub open spec fn placed_corner(corner: V2, anchor: V2, rotation: Option<Rotation>) -> V2 {
    match rotation {
        Some(rot) => rotate_about_value(corner, anchor, rot.sin as int, rot.cos as int),
        None => corner,
    }
}

/// The four vertices one draw request appends, given the texture slot the
/// batcher resolved: rotated corners, normalized texture coordinates of the
/// source rectangle, and the slot index on every vertex.
pub open spec fn quad_vertex_values(call: DrawCall, slot: int) -> Seq<Vertex2D> {
    let corners = corner_values(call.pos, call.size, call.origin);
    let tc = tex_coord_value(call.src_pos, call.texture.width as int, call.texture.height as int);
    let ts = tex_coord_value(call.src_size, call.texture.width as int, call.texture.height as int);
    let tl = tc.x;
    let tr = (tc.x + ts.x) as i64;
    let tt = tc.y;
    let tb = (tc.y + ts.y) as i64;
    seq![
        Vertex2D {
            pos: placed_corner(corners[0], call.pos, call.rotation),
            tex_coords: V2 { x: tl, y: tt },
            tex_idx: slot as i32,
        },
        Vertex2D {
            pos: placed_corner(corners[1], call.pos, call.rotation),
            tex_coords: V2 { x: tr, y: tt },
            tex_idx: slot as i32,
        },
        Vertex2D {
            pos: placed_corner(corners[2], call.pos, call.rotation),
            tex_coords: V2 { x: tr, y: tb },
            tex_idx: slot as i32,
        },
        Vertex2D {
            pos: placed_corner(corners[3], call.pos, call.rotation),
            tex_coords: V2 { x: tl, y: tb },
            tex_idx: slot as i32,
        },
    ]
}

/// Builds the four vertices of one quad.
pub fn make_quad_vertices(call: &DrawCall, slot: i32) -> (r: Vec<Vertex2D>)
    requires
        call.wf(),
        0 <= slot,
    ensures
        r@ =~= quad_vertex_values(*call, slot as int),
        r@.len() == 4,
{
    proof {
        crate::fx::lemma_fx_mul_bound(
            call.origin.x as int, call.size.x as int, FX_ONE as int, FX_COORD_LIMIT as int);
        crate::fx::lemma_fx_mul_bound(
            call.origin.y as int, call.size.y as int, FX_ONE as int, FX_COORD_LIMIT as int);
    }
    let l = call.pos.x - fx_mul(call.origin.x, call.size.x);
    let t = call.pos.y - fx_mul(call.origin.y, call.size.y);
    let r = l + call.size.x;
    let b = t + call.size.y;

    let mut ltp = V2 { x: l, y: t };
    let mut rtp = V2 { x: r, y: t };
    let mut rbp = V2 { x: r, y: b };
    let mut lbp = V2 { x: l, y: b };

    if let Some(rot) = call.rotation {
        ltp = v2_rotate_about_v2(&ltp, &call.pos, rot.sin, rot.cos);
        rtp = v2_rotate_about_v2(&rtp, &call.pos, rot.sin, rot.cos);
        rbp = v2_rotate_about_v2(&rbp, &call.pos, rot.sin, rot.cos);
        lbp = v2_rotate_about_v2(&lbp, &call.pos, rot.sin, rot.cos);
    }

    let tc = pixel_to_tex_coords(&call.src_pos, &call.texture);
    let ts = pixel_to_tex_coords(&call.src_size, &call.texture);
    proof {
        lemma_tex_coord_in_range(call.src_pos, call.texture.width as int, call.texture.height as int);
        lemma_tex_coord_in_range(call.src_size, call.texture.width as int, call.texture.height as int);
    }
    let tl = tc.x;
    let tr = tc.x + ts.x;
    let tt = tc.y;
    let tb = tc.y + ts.y;

    let mut out: Vec<Vertex2D> = Vec::new();
    out.push(Vertex2D { pos: ltp, tex_coords: V2 { x: tl, y: tt }, tex_idx: slot });
    out.push(Vertex2D { pos: rtp, tex_coords: V2 { x: tr, y: tt }, tex_idx: slot });
    out.push(Vertex2D { pos: rbp, tex_coords: V2 { x: tr, y: tb }, tex_idx: slot });
    out.push(Vertex2D { pos: lbp, tex_coords: V2 { x: tl, y: tb }, tex_idx: slot });
    out
}

/// Normalized texture coordinates keep the magnitude of the pixel
/// coordinates they come from.
proof fn lemma_tex_coord_in_range(coords: V2, width: int, height: int)
    requires
        coords.in_coord_range(),
        width >= 1,
        height >= 1,
    ensures
        -FX_COORD_LIMIT <= tex_coord_value(coords, width, height).x <= FX_COORD_LIMIT,
        -FX_COORD_LIMIT <= tex_coord_value(coords, width, height).y <= FX_COORD_LIMIT,
{
    lemma_trunc_div_bound(coords.x as int, width, FX_COORD_LIMIT as int);
    lemma_trunc_div_bound(coords.y as int, height, FX_COORD_LIMIT as int);
}

/// Truncating division never grows the magnitude of its dividend.
proof fn lemma_trunc_div_bound(n: int, d: int, bound: int)
    requires
        d >= 1,
        0 <= bound,
        -bound <= n <= bound,
    ensures
        -bound <= crate::fx::fx_trunc_div(n, d) <= bound,
{
    if n >= 0 {
        vstd::arithmetic::div_mod::lemma_div_nonincreasing(n, d);
        vstd::arithmetic::div_mod::lemma_div_pos_is_pos(n, d);
    } else {
        vstd::arithmetic::div_mod::lemma_div_nonincreasing(-n, d);
        vstd::arithmetic::div_mod::lemma_div_pos_is_pos(-n, d);
    }
}

} // verus!
