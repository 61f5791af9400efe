//! Texture records and sprites.
//!
//! A texture record carries what the batching logic reads of a texture: its
//! registry id and its pixel dimensions. The GPU-resident view and sampler
//! belong to the device layer outside this crate, which keeps them in a table
//! parallel to the registry, indexed by the same ids.

use vstd::prelude::*;
use crate::geo::V2;
use crate::fx::FX_ONE;

verus! {

pub type ResourceID = usize;

pub type TextureID = ResourceID;

/// Largest pixel dimension a registered texture may have.
pub const TEX_DIM_LIMIT: u32 = 32768;

/// What the renderer reads of a texture: its id and pixel dimensions.
#[derive(Clone, Copy, PartialEq, Eq, Structural, Debug)]
pub struct Texture {
    pub id: TextureID,
    pub width: u32,
    pub height: u32,
}

impl Texture {
    /// Dimensions are nonzero (a texture has at least one pixel) and small
    /// enough for the fixed-point source-rectangle arithmetic.
    pub open spec fn wf(self) -> bool {
        1 <= self.width <= TEX_DIM_LIMIT && 1 <= self.height <= TEX_DIM_LIMIT
    }
}

/// A reusable reference to a texture: its id, a normalized pivot and a scale
/// factor. Carries no resource ownership.
#[derive(Clone, Copy, PartialEq, Eq, Structural, Debug)]
pub struct Sprite {
    pub texture_id: TextureID,
    pub origin: V2,
    pub scale: V2,
}

impl Sprite {
    /// The pivot is normalized (each component within `[0, 1]`).
    pub open spec fn wf(self) -> bool {
        0 <= self.origin.x <= FX_ONE && 0 <= self.origin.y <= FX_ONE
    }

    pub fn new(texture_id: TextureID, origin: V2, scale: V2) -> (r: Sprite)
        ensures
            r == (Sprite { texture_id, origin, scale }),
    {
        Sprite { texture_id, origin, scale }
    }
}

impl Default for Sprite {
    /// The default sprite shows the default texture unscaled, anchored at its
    /// top-left corner.
    fn default() -> (r: Sprite)
        ensures
            r.texture_id == 0,
            r.origin == (V2 { x: 0, y: 0 }),
            r.scale == (V2 { x: FX_ONE as i64, y: FX_ONE as i64 }),
    {
        Sprite {
            texture_id: 0,
            origin: V2 { x: 0, y: 0 },
            scale: V2 { x: FX_ONE, y: FX_ONE },
        }
    }
}

} // verus!
