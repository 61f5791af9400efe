//! The 2D batched renderer core.
//!
//! Draw requests accumulate quads in a fixed staging buffer and texture ids
//! in a bounded slot table. When either fills up, or at frame end, the batch
//! is flushed: this core then hands the device layer a packet naming exactly
//! what to upload, bind and draw, and resets the batch. The device calls
//! themselves (buffer writes, the render pass, submit and present) happen
//! outside the library, driven by these packets.

use vstd::prelude::*;
use crate::camera::{mat4_bounded, Mat4, OrthographicCamera, PixelSize};
use crate::fx::{fx_mul_value, FX_ONE, FX_COORD_LIMIT};
use crate::geo::{Rotation, V2, V3};
use crate::geometry::{make_quad_vertices, quad_vertex_values, DrawCall, Vertex2D};
use crate::resource_manager::{ResourceManager, WHITE_TEXTURE_ID};
use crate::texture::{Sprite, Texture, TextureID};

verus! {

/// Capacity of the staging buffer, in quads.
pub const MAX_QUADS: usize = 1024;

/// Capacity of the staging buffer, in vertices.
pub const MAX_VERTICES: usize = MAX_QUADS * 4;

/// Indices drawn for a full batch.
pub const MAX_INDICES: usize = MAX_QUADS * 6;

/// Capacity of the per-batch texture slot table.
pub const MAX_TEXTURES: usize = 16;

/// The batch state as mathematics: the staging buffer, the quad count, the
/// slot table and how many slots are bound.
#[verifier::ext_equal]
pub struct BatchModel {
    pub vertices: Seq<Vertex2D>,
    pub n_quads: int,
    pub slots: Seq<TextureID>,
    pub active: int,
}

impl BatchModel {
    /// The buffer has its fixed capacity, the quad count is within it, the
    /// slot table has its fixed length, at least slot 0 is bound, and slot 0
    /// holds the default texture.
    pub open spec fn wf(self) -> bool {
        &&& self.vertices.len() == MAX_VERTICES
        &&& 0 <= self.n_quads <= MAX_QUADS
        &&& self.slots.len() == MAX_TEXTURES
        &&& 1 <= self.active <= MAX_TEXTURES
        &&& self.slots[0] == WHITE_TEXTURE_ID
    }

    /// The batch-start state a flush leaves behind: no quads, only slot 0
    /// (the default texture) bound. The buffers themselves are kept.
    pub open spec fn reset(self) -> BatchModel {
        BatchModel { n_quads: 0, active: 1, ..self }
    }
}

/// The first slot in `[from, active)` holding `id`.
pub open spec fn slot_scan(slots: Seq<TextureID>, active: int, id: TextureID, from: int)
    -> Option<int>
    decreases active - from,
{
    if from >= active {
        None
    } else if slots[from] == id {
        Some(from)
    } else {
        slot_scan(slots, active, id, from + 1)
    }
}

/// The slot already holding `id` this batch, if any; the scan starts at
/// slot 1, so the default texture's fixed slot 0 is never reused directly.
pub open spec fn find_slot(m: BatchModel, id: TextureID) -> Option<int> {
    slot_scan(m.slots, m.active, id, 1)
}

/// Whether a draw of texture `id` forces a flush first: the quad buffer is
/// full, or the texture is unseen and the slot table is full. Either way the
/// overflow is absorbed, never an error.
pub open spec fn draw_flushes(m: BatchModel, id: TextureID) -> bool {
    m.n_quads == MAX_QUADS || (find_slot(m, id) is None && m.active == MAX_TEXTURES)
}

/// The slot index the next quad of texture `id` will carry: the slot found
/// by the scan, or the next free one.
pub open spec fn chosen_slot(m: BatchModel, id: TextureID) -> int {
    match find_slot(m, id) {
        Some(i) => i,
        None => m.active,
    }
}

/// The batch after one quad is appended in a state with room: the texture
/// resolved to a slot (a fresh one if unseen), the four vertices written at
/// the buffer tail, the quad counted.
pub open spec fn with_quad(m: BatchModel, call: DrawCall) -> BatchModel {
    let slot = chosen_slot(m, call.texture.id);
    let slots2 = if find_slot(m, call.texture.id) is Some {
        m.slots
    } else {
        m.slots.update(m.active, call.texture.id)
    };
    let active2 = if find_slot(m, call.texture.id) is Some {
        m.active
    } else {
        m.active + 1
    };
    let vs = quad_vertex_values(call, slot);
    BatchModel {
        vertices: m.vertices.update(4 * m.n_quads, vs[0]).update(4 * m.n_quads + 1, vs[1])
            .update(4 * m.n_quads + 2, vs[2]).update(4 * m.n_quads + 3, vs[3]),
        n_quads: m.n_quads + 1,
        slots: slots2,
        active: active2,
    }
}

/// One draw call: a forced flush when capacity demands it, then the quad.
pub open spec fn draw_step(m: BatchModel, call: DrawCall) -> BatchModel {
    if draw_flushes(m, call.texture.id) {
        with_quad(m.reset(), call)
    } else {
        with_quad(m, call)
    }
}

/// The texture ids a flush binds, slot by slot: bound slots keep their
/// texture, the rest are padded with the default texture, so the binding
/// array is always fully populated.
pub open spec fn flush_bindings(m: BatchModel) -> Seq<TextureID> {
    Seq::new(MAX_TEXTURES as nat, |i: int|
        if i < m.active {
            m.slots[i]
        } else {
            WHITE_TEXTURE_ID
        })
}

/// Why acquiring or presenting a surface image failed.
#[derive(Clone, Copy, PartialEq, Eq, Structural, Debug)]
pub enum PresentError {
    /// The surface was lost; transient.
    Lost,
    /// The device is out of memory; fatal.
    OutOfMemory,
    /// Anything else; the frame is skipped.
    Other,
}

/// What the application should do about a failed present.
#[derive(Clone, Copy, PartialEq, Eq, Structural, Debug)]
pub enum RecoveryAction {
    /// Reconfigure the surface with the current window size and retry on the
    /// next frame; the current frame's draw is abandoned.
    ReconfigureSurface,
    /// Propagate for an orderly shutdown.
    Abort,
    /// Log and continue; the current frame is skipped.
    SkipFrame,
}

/// Maps a present failure to its recovery: a lost surface is reconfigured,
/// out of memory aborts, anything else skips the frame.
pub fn recovery_action(err: &PresentError) -> (r: RecoveryAction)
    ensures
        r == (match err {
            PresentError::Lost => RecoveryAction::ReconfigureSurface,
            PresentError::OutOfMemory => RecoveryAction::Abort,
            PresentError::Other => RecoveryAction::SkipFrame,
        }),
{
    match err {
        PresentError::Lost => RecoveryAction::ReconfigureSurface,
        PresentError::OutOfMemory => RecoveryAction::Abort,
        PresentError::Other => RecoveryAction::SkipFrame,
    }
}

/// Everything one flush tells the device layer to do: the camera matrix to
/// upload, the live vertex range, the texture binding list (always fully
/// populated), and how many indices the one draw call covers.
pub struct FlushPacket {
    pub view_proj: Mat4,
    pub vertices: Vec<Vertex2D>,
    pub quad_count: usize,
    pub index_count: usize,
    pub texture_ids: Vec<TextureID>,
}

/// The packet a flush of camera `cam` and batch `m` must produce.
pub open spec fn packet_matches(p: FlushPacket, cam: OrthographicCamera, m: BatchModel) -> bool {
    &&& p.view_proj.value() == cam.view_projection_entries()
    &&& mat4_bounded(p.view_proj.value(), crate::camera::VP_NUM_LIMIT as int)
    &&& p.vertices@ == m.vertices.take(4 * m.n_quads)
    &&& p.quad_count == m.n_quads
    &&& p.index_count == 6 * m.n_quads
    &&& p.texture_ids@ == flush_bindings(m)
}

/// The shared index pattern: quad `q` is drawn as two triangles over its
/// four vertices, `{0, 1, 3}` and `{1, 2, 3}` relative to base `4·q`.
pub open spec fn quad_index_value(q: int, k: int) -> int {
    q * 4 + (if k == 0 {
        0int
    } else if k == 1 {
        1int
    } else if k == 2 {
        3int
    } else if k == 3 {
        1int
    } else if k == 4 {
        2int
    } else {
        3int
    })
}

/// Builds the index buffer contents shared by every batch: six indices per
/// quad, two triangles over the quad's four vertices.
#[verifier::loop_isolation(false)]
pub fn build_quad_indices() -> (r: Vec<u16>)
    ensures
        r@.len() == MAX_INDICES,
        forall|q: int, k: int|
            0 <= q < MAX_QUADS && 0 <= k < 6 ==> r@[6 * q + k] == quad_index_value(q, k),
{
    let mut indices: Vec<u16> = Vec::new();
    let mut i: usize = 0;
    while i < MAX_QUADS
        invariant
            i <= MAX_QUADS,
            indices@.len() == 6 * i,
            forall|q: int, k: int|
                0 <= q < i && 0 <= k < 6 ==> indices@[6 * q + k] == quad_index_value(q, k),
        decreases MAX_QUADS - i,
    {
        let base = (i * 4) as u16;
        indices.push(base);
        indices.push(base + 1);
        indices.push(base + 3);
        indices.push(base + 1);
        indices.push(base + 2);
        indices.push(base + 3);
        i += 1;
    }
    indices
}

} // verus!

verus! {

/// The renderer core: the camera, the quad staging buffer, the texture slot
/// table and the current surface configuration. The staging buffer and slot
/// table persist for the renderer's lifetime; a flush only resets counters.
pub struct Renderer2D {
    /// The camera the flush pipeline reads; mutable for pan and zoom.
    pub camera: OrthographicCamera,
    pub vertex_data: Vec<Vertex2D>,
    pub n_quads_drawn: usize,
    pub texture_slots: Vec<TextureID>,
    pub active_textures: usize,
    pub config_width: u32,
    pub config_height: u32,
}

impl Renderer2D {
    /// The batch state this renderer holds.
    pub open spec fn batch(self) -> BatchModel {
        BatchModel {
            vertices: self.vertex_data@,
            n_quads: self.n_quads_drawn as int,
            slots: self.texture_slots@,
            active: self.active_textures as int,
        }
    }

    /// The dimensions the presentation surface is configured with.
    pub open spec fn surface_size_spec(self) -> PixelSize {
        PixelSize { width: self.config_width, height: self.config_height }
    }

    /// A well-formed batch, a well-formed camera, and a nonzero surface.
    pub open spec fn wf(self) -> bool {
        &&& self.batch().wf()
        &&& self.camera.wf()
        &&& self.surface_size_spec().width >= 1
        &&& self.surface_size_spec().height >= 1
    }

    /// Checks the renderer's invariants at run time, for callers outside
    /// verified code that must establish them before drawing or flushing.
    pub fn is_well_formed(&self) -> (r: bool)
        ensures
            r == self.wf(),
    {
        let batch_ok = self.vertex_data.len() == MAX_VERTICES
            && self.n_quads_drawn <= MAX_QUADS
            && self.texture_slots.len() == MAX_TEXTURES
            && 1 <= self.active_textures && self.active_textures <= MAX_TEXTURES
            && self.texture_slots[0] == WHITE_TEXTURE_ID;
        let cam = &self.camera;
        let dir_ok = (cam.dir.x == FX_ONE || cam.dir.x == -FX_ONE) && cam.dir.y == 0
            && cam.dir.z == 0
            || cam.dir.x == 0 && (cam.dir.y == FX_ONE || cam.dir.y == -FX_ONE) && cam.dir.z == 0
            || cam.dir.x == 0 && cam.dir.y == 0 && (cam.dir.z == FX_ONE || cam.dir.z == -FX_ONE);
        let up_ok = (cam.up.x == FX_ONE || cam.up.x == -FX_ONE) && cam.up.y == 0 && cam.up.z == 0
            || cam.up.x == 0 && (cam.up.y == FX_ONE || cam.up.y == -FX_ONE) && cam.up.z == 0
            || cam.up.x == 0 && cam.up.y == 0 && (cam.up.z == FX_ONE || cam.up.z == -FX_ONE);
        let axes_ok = dir_ok && up_ok
            && !(cam.dir.x != 0 && cam.up.x != 0)
            && !(cam.dir.y != 0 && cam.up.y != 0)
            && !(cam.dir.z != 0 && cam.up.z != 0);
        let cam_ok = axes_ok
            && -crate::camera::CAM_POS_LIMIT <= cam.pos.x && cam.pos.x <= crate::camera::CAM_POS_LIMIT
            && -crate::camera::CAM_POS_LIMIT <= cam.pos.y && cam.pos.y <= crate::camera::CAM_POS_LIMIT
            && -crate::camera::CAM_POS_LIMIT <= cam.pos.z && cam.pos.z <= crate::camera::CAM_POS_LIMIT
            && 1 <= cam.size.width && cam.size.width <= crate::camera::CAM_VIEWPORT_LIMIT
            && 1 <= cam.size.height && cam.size.height <= crate::camera::CAM_VIEWPORT_LIMIT
            && -crate::camera::CAM_PLANE_LIMIT <= cam.znear && cam.znear < cam.zfar
            && cam.zfar <= crate::camera::CAM_PLANE_LIMIT;
        batch_ok && cam_ok && self.config_width >= 1 && self.config_height >= 1
    }

    /// A fresh renderer for a surface of the given size: an empty staging
    /// buffer, only the default texture bound, and the stock 2D camera
    /// looking down the negative z axis at an 800×600 pixel rectangle.
    pub fn init(surface_width: u32, surface_height: u32) -> (r: Renderer2D)
        requires
            1 <= surface_width,
            1 <= surface_height,
        ensures
            r.wf(),
            r.batch().n_quads == 0,
            r.batch().active == 1,
            r.batch().vertices == Seq::new(MAX_VERTICES as nat, |i: int| Vertex2D::default_value()),
            r.batch().slots == Seq::new(MAX_TEXTURES as nat, |i: int| WHITE_TEXTURE_ID),
            r.camera == (OrthographicCamera {
                pos: V3 { x: 0, y: 0, z: FX_ONE as i64 },
                dir: V3 { x: 0, y: 0, z: -FX_ONE as i64 },
                up: V3 { x: 0, y: FX_ONE as i64, z: 0 },
                size: PixelSize { width: 800, height: 600 },
                znear: 6554,
                zfar: (100 * FX_ONE) as i64,
            }),
            r.surface_size_spec() == (PixelSize { width: surface_width, height: surface_height }),
    {
        let mut vertex_data: Vec<Vertex2D> = Vec::new();
        let mut i: usize = 0;
        while i < MAX_VERTICES
            invariant
                i <= MAX_VERTICES,
                vertex_data@.len() == i,
                forall|j: int| 0 <= j < i ==> vertex_data@[j] == Vertex2D::default_value(),
            decreases MAX_VERTICES - i,
        {
            vertex_data.push(Vertex2D::empty());
            i += 1;
        }
        let mut texture_slots: Vec<TextureID> = Vec::new();
        let mut j: usize = 0;
        while j < MAX_TEXTURES
            invariant
                j <= MAX_TEXTURES,
                texture_slots@.len() == j,
                forall|k: int| 0 <= k < j ==> texture_slots@[k] == WHITE_TEXTURE_ID,
            decreases MAX_TEXTURES - j,
        {
            texture_slots.push(WHITE_TEXTURE_ID);
            j += 1;
        }
        let camera = OrthographicCamera {
            pos: V3 { x: 0, y: 0, z: FX_ONE },
            dir: V3 { x: 0, y: 0, z: -FX_ONE },
            up: V3 { x: 0, y: FX_ONE, z: 0 },
            size: PixelSize { width: 800, height: 600 },
            znear: 6554,
            zfar: 100 * FX_ONE,
        };
        let r = Renderer2D {
            camera,
            vertex_data,
            n_quads_drawn: 0,
            texture_slots,
            active_textures: 1,
            config_width: surface_width,
            config_height: surface_height,
        };
        proof {
            assert(r.batch().vertices =~= Seq::new(MAX_VERTICES as nat,
                |i: int| Vertex2D::default_value()));
            assert(r.batch().slots =~= Seq::new(MAX_TEXTURES as nat, |i: int| WHITE_TEXTURE_ID));
        }
        r
    }

    /// Reconfigures the presentation surface on a viewport change. A zero
    /// width or height (a minimized window) leaves the prior configuration
    /// untouched and reports that no reconfiguration is to be made.
    pub fn resize(&mut self, size: PixelSize) -> (reconfigured: bool)
        ensures
            reconfigured == (size.width > 0 && size.height > 0),
            reconfigured ==> final(self).surface_size_spec() == size,
            !reconfigured ==> final(self).surface_size_spec() == old(self).surface_size_spec(),
            final(self).batch() == old(self).batch(),
            final(self).camera == old(self).camera,
    {
        if size.width > 0 && size.height > 0 {
            self.config_width = size.width;
            self.config_height = size.height;
            true
        } else {
            false
        }
    }

    /// The dimensions the surface is currently configured with.
    pub fn surface_size(&self) -> (r: PixelSize)
        ensures
            r == self.surface_size_spec(),
    {
        PixelSize { width: self.config_width, height: self.config_height }
    }

    /// Flushes the batch: recomputes the camera's view-projection matrix,
    /// gathers the live vertex range and the fully padded texture binding
    /// list into a packet for the device layer, and resets the batch to its
    /// start state. The device layer uploads, binds, draws `index_count`
    /// indices in one indexed draw call, submits and presents.
    pub fn flush(&mut self) -> (r: FlushPacket)
        requires
            old(self).wf(),
        ensures
            packet_matches(r, old(self).camera, old(self).batch()),
            final(self).batch() == old(self).batch().reset(),
            final(self).camera == old(self).camera,
            final(self).surface_size_spec() == old(self).surface_size_spec(),
            final(self).wf(),
    {
        let view_proj = self.camera.build_view_projection_matrix();
        let count = self.n_quads_drawn;
        let mut vertices: Vec<Vertex2D> = Vec::new();
        let mut i: usize = 0;
        while i < count * 4
            invariant
                i <= count * 4,
                count <= MAX_QUADS,
                count * 4 <= self.vertex_data@.len(),
                vertices@ == self.vertex_data@.take(i as int),
                count == self.n_quads_drawn,
                self == old(self),
            decreases count * 4 - i,
        {
            let v = self.vertex_data[i];
            vertices.push(v);
            proof {
                assert(self.vertex_data@.take((i + 1) as int)
                    =~= self.vertex_data@.take(i as int).push(self.vertex_data@[i as int]));
            }
            i += 1;
        }
        let mut texture_ids: Vec<TextureID> = Vec::new();
        let mut j: usize = 0;
        while j < MAX_TEXTURES
            invariant
                j <= MAX_TEXTURES,
                texture_ids@.len() == j,
                forall|k: int| 0 <= k < j ==> texture_ids@[k] == flush_bindings(old(self).batch())[k],
                self == old(self),
                self.texture_slots@.len() == MAX_TEXTURES,
                self.active_textures <= MAX_TEXTURES,
            decreases MAX_TEXTURES - j,
        {
            if j < self.active_textures {
                let id = self.texture_slots[j];
                texture_ids.push(id);
            } else {
                texture_ids.push(WHITE_TEXTURE_ID);
            }
            j += 1;
        }
        self.n_quads_drawn = 0;
        self.active_textures = 1;
        proof {
            assert(texture_ids@ =~= flush_bindings(old(self).batch()));
            assert(self.batch() =~= old(self).batch().reset());
        }
        FlushPacket {
            view_proj,
            vertices,
            quad_count: count,
            index_count: count * 6,
            texture_ids,
        }
    }

    /// Renders the frame: the unconditional end-of-frame flush.
    pub fn render(&mut self) -> (r: FlushPacket)
        requires
            old(self).wf(),
        ensures
            packet_matches(r, old(self).camera, old(self).batch()),
            final(self).batch() == old(self).batch().reset(),
            final(self).camera == old(self).camera,
            final(self).surface_size_spec() == old(self).surface_size_spec(),
            final(self).wf(),
    {
        self.flush()
    }

    /// Scans the slot table for a texture already bound this batch.
    fn find_texture_slot(&self, id: TextureID) -> (r: Option<usize>)
        requires
            self.batch().wf(),
        ensures
            match r {
                Some(i) => find_slot(self.batch(), id) == Some(i as int)
                    && 1 <= i < self.batch().active,
                None => find_slot(self.batch(), id) is None,
            },
    {
        let mut i: usize = 1;
        while i < self.active_textures
            invariant
                1 <= i <= self.active_textures || (self.active_textures == 1 && i == 1),
                self.batch().wf(),
                slot_scan(self.texture_slots@, self.active_textures as int, id, 1)
                    == slot_scan(self.texture_slots@, self.active_textures as int, id, i as int),
            decreases self.active_textures - i,
        {
            if self.texture_slots[i] == id {
                return Some(i);
            }
            i += 1;
        }
        None
    }
}

} // verus!

verus! {

/// The draw request a plain quad-of-texture call stands for: the whole
/// texture, anchored at its top-left corner, unrotated.
pub open spec fn full_texture_call(pos: V2, size: V2, tex: Texture) -> DrawCall {
    DrawCall {
        pos,
        size,
        texture: tex,
        src_pos: V2 { x: 0, y: 0 },
        src_size: V2 {
            x: ((tex.width as int) * (FX_ONE as int)) as i64,
            y: ((tex.height as int) * (FX_ONE as int)) as i64,
        },
        origin: V2 { x: 0, y: 0 },
        rotation: None,
    }
}

/// The draw request a sprite draw stands for: the whole texture at the
/// texture's own dimensions scaled by the sprite's factors.
pub open spec fn sprite_call(sprite: Sprite, pos: V2, tex: Texture) -> DrawCall {
    let size = V2 {
        x: fx_mul_value((tex.width as int) * (FX_ONE as int), sprite.scale.x as int) as i64,
        y: fx_mul_value((tex.height as int) * (FX_ONE as int), sprite.scale.y as int) as i64,
    };
    full_texture_call(pos, size, tex)
}

/// The draw request an extended sprite draw stands for: the given source
/// rectangle and rotation, the given size scaled by the sprite's factors,
/// anchored at the sprite's pivot.
pub open spec fn sprite_ext_call(
    sprite: Sprite, pos: V2, size: V2, src_pos: V2, src_size: V2,
    rotation: Option<Rotation>, tex: Texture,
) -> DrawCall {
    DrawCall {
        pos,
        size: V2 {
            x: fx_mul_value(size.x as int, sprite.scale.x as int) as i64,
            y: fx_mul_value(size.y as int, sprite.scale.y as int) as i64,
        },
        texture: tex,
        src_pos,
        src_size,
        origin: sprite.origin,
        rotation,
    }
}

impl Renderer2D {
    /// Appends one quad. If the staging buffer is full, or the texture is
    /// new and the slot table is full, the batch is flushed first and the
    /// packet handed back for the device layer to perform; the overflow is
    /// absorbed, never an error. The quad's texture is resolved to a slot
    /// (reusing the slot of a texture already drawn this batch), the four
    /// vertices are written at the buffer tail with that slot index, and the
    /// quad is counted.
    pub fn draw_quad_texture_ext(
        &mut self,
        pos: &V2,
        size: &V2,
        texture: &Texture,
        src_pos: &V2,
        src_size: &V2,
        origin: &V2,
        rotation: Option<Rotation>,
    ) -> (flushed: Option<FlushPacket>)
        requires
            old(self).wf(),
            (DrawCall {
                pos: *pos, size: *size, texture: *texture, src_pos: *src_pos,
                src_size: *src_size, origin: *origin, rotation,
            }).wf(),
        ensures
            ({
                let call = DrawCall {
                    pos: *pos, size: *size, texture: *texture, src_pos: *src_pos,
                    src_size: *src_size, origin: *origin, rotation,
                };
                &&& final(self).batch() == draw_step(old(self).batch(), call)
                &&& final(self).wf()
                &&& (flushed is Some) == draw_flushes(old(self).batch(), texture.id)
                &&& (flushed matches Some(p) ==>
                    packet_matches(p, old(self).camera, old(self).batch()))
                &&& final(self).camera == old(self).camera
                &&& final(self).surface_size_spec() == old(self).surface_size_spec()
            }),
    {
        let ghost call = DrawCall {
            pos: *pos, size: *size, texture: *texture, src_pos: *src_pos,
            src_size: *src_size, origin: *origin, rotation,
        };
        let ghost pre = old(self).batch();
        let found = self.find_texture_slot(texture.id);
        let must_flush = self.n_quads_drawn == MAX_QUADS
            || (found.is_none() && self.active_textures == MAX_TEXTURES);
        proof {
            assert(must_flush == draw_flushes(pre, texture.id));
        }
        let mut flushed: Option<FlushPacket> = None;
        if must_flush {
            let packet = self.flush();
            flushed = Some(packet);
        }
        let ghost mid = self.batch();
        proof {
            if must_flush {
                assert(mid == pre.reset());
                assert(find_slot(mid, texture.id) is None);
            } else {
                assert(mid == pre);
            }
        }
        let slot_found: Option<usize> = if must_flush { None } else { found };
        let slot: usize = match slot_found {
            Some(i) => i,
            None => {
                let s = self.active_textures;
                self.texture_slots.set(s, texture.id);
                self.active_textures = s + 1;
                s
            },
        };
        proof {
            assert(0 <= slot < MAX_TEXTURES);
            assert(slot as int == chosen_slot(mid, texture.id));
            assert(self.texture_slots@ == (if find_slot(mid, call.texture.id) is Some {
                mid.slots
            } else {
                mid.slots.update(mid.active, call.texture.id)
            }));
        }
        let verts = make_quad_vertices(
            &DrawCall {
                pos: *pos, size: *size, texture: *texture, src_pos: *src_pos,
                src_size: *src_size, origin: *origin, rotation,
            },
            slot as i32,
        );
        let offset = self.n_quads_drawn * 4;
        let v0 = verts[0];
        let v1 = verts[1];
        let v2 = verts[2];
        let v3 = verts[3];
        self.vertex_data.set(offset, v0);
        self.vertex_data.set(offset + 1, v1);
        self.vertex_data.set(offset + 2, v2);
        self.vertex_data.set(offset + 3, v3);
        self.n_quads_drawn = self.n_quads_drawn + 1;
        proof {
            assert(self.batch() =~= with_quad(mid, call));
            assert(self.batch() == draw_step(pre, call));
        }
        flushed
    }

    /// Draws the whole texture as one axis-aligned quad of the given size,
    /// anchored at its top-left corner.
    pub fn draw_quad_texture(&mut self, pos: &V2, size: &V2, texture: &Texture)
        -> (flushed: Option<FlushPacket>)
        requires
            old(self).wf(),
            pos.in_coord_range(),
            size.in_coord_range(),
            texture.wf(),
        ensures
            final(self).batch() == draw_step(old(self).batch(),
                full_texture_call(*pos, *size, *texture)),
            final(self).wf(),
            (flushed is Some) == draw_flushes(old(self).batch(), texture.id),
            (flushed matches Some(p) ==> packet_matches(p, old(self).camera, old(self).batch())),
            final(self).camera == old(self).camera,
            final(self).surface_size_spec() == old(self).surface_size_spec(),
    {
        let src_pos = V2 { x: 0, y: 0 };
        let src_size = V2 {
            x: (texture.width as i64) * FX_ONE,
            y: (texture.height as i64) * FX_ONE,
        };
        let origin = V2 { x: 0, y: 0 };
        self.draw_quad_texture_ext(pos, size, texture, &src_pos, &src_size, &origin, None)
    }

    /// Draws a sprite at a position: the sprite's texture at its own pixel
    /// dimensions scaled by the sprite's factors.
    pub fn draw_sprite(&mut self, sprite: &Sprite, pos: &V2, res: &ResourceManager)
        -> (flushed: Option<FlushPacket>)
        requires
            old(self).wf(),
            res.wf(),
            sprite.texture_id < res.records().len(),
            pos.in_coord_range(),
            ({
                let tex = res.records()[sprite.texture_id as int];
                &&& -FX_COORD_LIMIT <= fx_mul_value(
                    (tex.width as int) * (FX_ONE as int), sprite.scale.x as int) <= FX_COORD_LIMIT
                &&& -FX_COORD_LIMIT <= fx_mul_value(
                    (tex.height as int) * (FX_ONE as int), sprite.scale.y as int) <= FX_COORD_LIMIT
            }),
        ensures
            ({
                let tex = res.records()[sprite.texture_id as int];
                &&& final(self).batch() == draw_step(old(self).batch(),
                    sprite_call(*sprite, *pos, tex))
                &&& final(self).wf()
                &&& (flushed is Some) == draw_flushes(old(self).batch(), sprite.texture_id)
                &&& (flushed matches Some(p) ==>
                    packet_matches(p, old(self).camera, old(self).batch()))
                &&& final(self).camera == old(self).camera
                &&& final(self).surface_size_spec() == old(self).surface_size_spec()
            }),
    {
        let texture = *res.get_texture(sprite.texture_id);
        let w_fx = (texture.width as i64) * FX_ONE;
        let h_fx = (texture.height as i64) * FX_ONE;
        let size = V2 {
            x: crate::fx::fx_mul(w_fx, sprite.scale.x),
            y: crate::fx::fx_mul(h_fx, sprite.scale.y),
        };
        self.draw_quad_texture(pos, &size, &texture)
    }

    /// Draws a sprite with an explicit size, source rectangle and optional
    /// rotation: the size is scaled by the sprite's factors, the quad is
    /// anchored at the sprite's pivot and rotated about the position.
    pub fn draw_sprite_ext(
        &mut self,
        sprite: &Sprite,
        pos: &V2,
        size: &V2,
        src_pos: &V2,
        src_size: &V2,
        rotation: Option<Rotation>,
        res: &ResourceManager,
    ) -> (flushed: Option<FlushPacket>)
        requires
            old(self).wf(),
            res.wf(),
            sprite.texture_id < res.records().len(),
            sprite.wf(),
            pos.in_coord_range(),
            src_pos.in_coord_range(),
            src_size.in_coord_range(),
            match rotation {
                Some(rot) => rot.wf(),
                None => true,
            },
            -FX_COORD_LIMIT <= fx_mul_value(size.x as int, sprite.scale.x as int)
                <= FX_COORD_LIMIT,
            -FX_COORD_LIMIT <= fx_mul_value(size.y as int, sprite.scale.y as int)
                <= FX_COORD_LIMIT,
        ensures
            ({
                let tex = res.records()[sprite.texture_id as int];
                &&& final(self).batch() == draw_step(old(self).batch(),
                    sprite_ext_call(*sprite, *pos, *size, *src_pos, *src_size, rotation, tex))
                &&& final(self).wf()
                &&& (flushed is Some) == draw_flushes(old(self).batch(), sprite.texture_id)
                &&& (flushed matches Some(p) ==>
                    packet_matches(p, old(self).camera, old(self).batch()))
                &&& final(self).camera == old(self).camera
                &&& final(self).surface_size_spec() == old(self).surface_size_spec()
            }),
    {
        let texture = *res.get_texture(sprite.texture_id);
        let scaled = V2 {
            x: crate::fx::fx_mul(size.x, sprite.scale.x),
            y: crate::fx::fx_mul(size.y, sprite.scale.y),
        };
        self.draw_quad_texture_ext(
            pos, &scaled, &texture, src_pos, src_size, &sprite.origin, rotation)
    }
}

} // verus!
