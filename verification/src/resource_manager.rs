//! The texture registry.
//!
//! Owns the records of all registered textures and hands out stable ids.
//! Id 0 always names the 1×1 opaque default texture, registered before any
//! user texture. File reading and image decoding happen outside the library;
//! the decoded dimensions are registered here and the id returned keys both
//! this registry and the device layer's table of GPU handles.

use vstd::prelude::*;
use crate::texture::{Texture, TextureID, TEX_DIM_LIMIT};

verus! {

/// The id of the 1×1 opaque default texture, always registered first.
pub const WHITE_TEXTURE_ID: TextureID = 0;

pub struct ResourceManager {
    textures: Vec<Texture>,
}

impl ResourceManager {
    /// All records, in registration order.
    pub closed spec fn records(self) -> Seq<Texture> {
        self.textures@
    }

    /// Every record's id equals its index, every record is well formed, and
    /// the default texture occupies id 0 with a single pixel.
    pub open spec fn wf(self) -> bool {
        &&& self.records().len() >= 1
        &&& forall|i: int|
            0 <= i < self.records().len() ==> (#[trigger] self.records()[i]).id == i
                && self.records()[i].wf()
        &&& self.records()[WHITE_TEXTURE_ID as int].width == 1
        &&& self.records()[WHITE_TEXTURE_ID as int].height == 1
    }

    /// A fresh registry holding only the default texture record.
    pub fn new() -> (r: ResourceManager)
        ensures
            r.wf(),
            r.records().len() == 1,
    {
        let mut textures: Vec<Texture> = Vec::new();
        textures.push(Texture { id: WHITE_TEXTURE_ID, width: 1, height: 1 });
        ResourceManager { textures }
    }

    /// Registers a decoded texture of the given pixel dimensions and returns
    /// its id: always the number of records registered so far.
    pub fn register_texture(&mut self, width: u32, height: u32) -> (id: TextureID)
        requires
            old(self).wf(),
            1 <= width <= TEX_DIM_LIMIT,
            1 <= height <= TEX_DIM_LIMIT,
        ensures
            final(self).wf(),
            id == old(self).records().len(),
            final(self).records() == old(self).records().push(
                Texture { id, width, height }),
    {
        let id = self.textures.len();
        self.textures.push(Texture { id, width, height });
        id
    }

    /// The record registered under `id`.
    pub fn get_texture(&self, id: TextureID) -> (r: &Texture)
        requires
            self.wf(),
            id < self.records().len(),
        ensures
            *r == self.records()[id as int],
    {
        &self.textures[id]
    }

    /// All records, in registration order.
    pub fn get_textures(&self) -> (r: &Vec<Texture>)
        ensures
            r@ == self.records(),
    {
        &self.textures
    }

    /// How many textures are registered.
    pub fn n_textures(&self) -> (r: usize)
        ensures
            r == self.records().len(),
    {
        self.textures.len()
    }
}

} // verus!
