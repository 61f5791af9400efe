//! The components an entity can carry. Plain data; the per-frame behavior
//! that reads them lives with the loop that owns the renderer.

use vstd::prelude::*;
use crate::fx::FX_ONE;
use crate::geo::{Rotation, V2};
use crate::texture::Sprite;

verus! {

/// Position, scale and optional rotation of an entity. The rotation is
/// carried as a precomputed sine/cosine pair; `None` means unrotated.
#[derive(Clone, Copy, PartialEq, Eq, Debug)]
pub struct TransformComponent {
    pub position: V2,
    pub scale: V2,
    pub rotation: Option<Rotation>,
}

impl Default for TransformComponent {
    /// At the origin, unscaled, unrotated.
    fn default() -> (r: TransformComponent)
        ensures
            r.position == (V2 { x: 0, y: 0 }),
            r.scale == (V2 { x: FX_ONE as i64, y: FX_ONE as i64 }),
            r.rotation is None,
    {
        TransformComponent {
            position: V2 { x: 0, y: 0 },
            scale: V2 { x: FX_ONE, y: FX_ONE },
            rotation: None,
        }
    }
}

/// Hit points.
#[derive(Clone, Copy, PartialEq, Eq, Structural, Debug)]
pub struct HealthComponent {
    pub health: i32,
}

/// A sprite and the position it is drawn at; the position is synced from
/// the owning entity's transform each update.
#[derive(Clone, Copy, PartialEq, Eq, Structural, Debug)]
pub struct SpriteComponent {
    pub sprite: Sprite,
    pub draw_pos: V2,
}

} // verus!
