//! Batch-level properties of the renderer, stated over whole sequences of
//! draw calls and proved once and for all.

use vstd::prelude::*;
use crate::fx::FX_ONE;
use crate::geo::{Rotation, V2};
use crate::geometry::{quad_vertex_values, DrawCall};
use crate::renderer2d::{chosen_slot, draw_flushes, draw_step, find_slot, slot_scan, with_quad,
    BatchModel, MAX_QUADS, MAX_TEXTURES};
use crate::texture::TextureID;

verus! {

broadcast use vstd::set::group_set_axioms, vstd::seq_lib::seq_to_set_is_finite;

/// The batch after a whole sequence of draw calls, first to last.
pub open spec fn run_batch(m: BatchModel, calls: Seq<DrawCall>) -> BatchModel
    decreases calls.len(),
{
    if calls.len() == 0 {
        m
    } else {
        draw_step(run_batch(m, calls.drop_last()), calls.last())
    }
}

/// How many of the draw calls force an implicit flush.
pub open spec fn flush_count(m: BatchModel, calls: Seq<DrawCall>) -> nat
    decreases calls.len(),
{
    if calls.len() == 0 {
        0nat
    } else {
        flush_count(m, calls.drop_last()) + (
        if draw_flushes(run_batch(m, calls.drop_last()), calls.last().texture.id) {
            1nat
        } else {
            0nat
        })
    }
}

/// The distinct texture ids a sequence of draw calls touches.
pub open spec fn call_ids(calls: Seq<DrawCall>) -> Set<TextureID> {
    calls.map_values(|c: DrawCall| c.texture.id).to_set()
}

/// The slot table's user-filled range: the entries of slots `[1, active)`.
pub open spec fn table_entries(m: BatchModel) -> Seq<TextureID> {
    m.slots.subrange(1, m.active)
}

/// The distinct texture ids bound this batch, slot 0's default aside.
pub open spec fn table_ids(m: BatchModel) -> Set<TextureID> {
    table_entries(m).to_set()
}

/// No texture id occupies two slots of the user-filled range. This holds of
/// every reachable batch: the scan reuses a slot before a new one is filled.
pub open spec fn table_distinct(m: BatchModel) -> bool {
    table_entries(m).no_duplicates()
}

/// The slot scan succeeds exactly when some slot of the scanned range holds
/// the id, and any slot it reports does.
proof fn lemma_scan_member(slots: Seq<TextureID>, active: int, id: TextureID, from: int)
    requires
        0 <= from,
        active <= slots.len(),
    ensures
        (slot_scan(slots, active, id, from) is Some)
            <==> exists|i: int| from <= i < active && slots[i] == id,
        match slot_scan(slots, active, id, from) {
            Some(j) => from <= j < active && slots[j] == id,
            None => true,
        },
    decreases active - from,
{
    if from >= active {
    } else if slots[from] == id {
        assert(from <= from < active && slots[from] == id);
    } else {
        lemma_scan_member(slots, active, id, from + 1);
    }
}

/// After an unseen id is stored in the next free slot, the scan finds it
/// there.
proof fn lemma_scan_after_append(slots: Seq<TextureID>, active: int, id: TextureID, from: int)
    requires
        0 <= from <= active < slots.len(),
        slot_scan(slots, active, id, from) is None,
    ensures
        slot_scan(slots.update(active, id), active + 1, id, from) == Some(active),
    decreases active - from,
{
    if from == active {
        assert(slots.update(active, id)[from] == id);
    } else {
        assert(slots.update(active, id)[from] == slots[from]);
        lemma_scan_after_append(slots, active, id, from + 1);
    }
}

/// Membership in the table's id set coincides with a successful slot scan.
proof fn lemma_find_slot_is_membership(m: BatchModel, id: TextureID)
    requires
        m.wf(),
    ensures
        (find_slot(m, id) is Some) <==> table_ids(m).contains(id),
{
    lemma_scan_member(m.slots, m.active, id, 1);
    if exists|i: int| 1 <= i < m.active && m.slots[i] == id {
        let i = choose|i: int| 1 <= i < m.active && m.slots[i] == id;
        assert(table_entries(m)[i - 1] == id);
        assert(table_entries(m).contains(id));
    }
    if table_ids(m).contains(id) {
        let j = choose|j: int| 0 <= j < table_entries(m).len() && table_entries(m)[j] == id;
        assert(m.slots[j + 1] == id);
        assert(1 <= j + 1 < m.active && m.slots[j + 1] == id);
    }
}

/// The workhorse: starting from a batch whose slot table is duplicate-free,
/// a sequence of draw calls that fits in the quad buffer and whose textures,
/// together with those already bound, fit in the slot table, forces no flush
/// at all, and afterward the quad count has grown by exactly the number of
/// calls.
pub proof fn lemma_run_within_capacity(m: BatchModel, calls: Seq<DrawCall>)
    requires
        m.wf(),
        table_distinct(m),
        m.n_quads + calls.len() <= MAX_QUADS,
        table_ids(m).union(call_ids(calls)).len() <= MAX_TEXTURES - 1,
    ensures
        flush_count(m, calls) == 0,
        run_batch(m, calls).n_quads == m.n_quads + calls.len(),
        run_batch(m, calls).wf(),
        table_distinct(run_batch(m, calls)),
        table_ids(run_batch(m, calls)).subset_of(table_ids(m).union(call_ids(calls))),
    decreases calls.len(),
{
    table_entries(m).unique_seq_to_set();
    if calls.len() == 0 {
        assert(table_ids(m).subset_of(table_ids(m).union(call_ids(calls))));
    } else {
        let prefix = calls.drop_last();
        let c = calls.last();
        let id = c.texture.id;
        let whole = table_ids(m).union(call_ids(calls));

        assert(calls.map_values(|k: DrawCall| k.texture.id).contains(id)) by {
            assert(calls.map_values(|k: DrawCall| k.texture.id)[calls.len() - 1] == id);
        }
        assert(call_ids(prefix).subset_of(call_ids(calls))) by {
            assert forall|x: TextureID| call_ids(prefix).contains(x)
                implies call_ids(calls).contains(x) by {
                let ms = prefix.map_values(|k: DrawCall| k.texture.id);
                let j = choose|j: int| 0 <= j < ms.len() && ms[j] == x;
                assert(calls.map_values(|k: DrawCall| k.texture.id)[j] == x);
            }
        }
        assert(table_ids(m).union(call_ids(prefix)).subset_of(whole));
        vstd::set_lib::lemma_len_subset(table_ids(m).union(call_ids(prefix)), whole);

        lemma_run_within_capacity(m, prefix);
        let mp = run_batch(m, prefix);
        table_entries(mp).unique_seq_to_set();
        assert(table_ids(mp).len() == mp.active - 1);
        lemma_find_slot_is_membership(mp, id);

        assert(mp.n_quads < MAX_QUADS);
        if find_slot(mp, id) is Some {
            assert(!draw_flushes(mp, id));
            let mq = with_quad(mp, c);
            assert(table_entries(mq) == table_entries(mp));
            assert(run_batch(m, calls) == mq);
        } else {
            let grown = table_ids(mp).insert(id);
            assert(grown.subset_of(whole));
            vstd::set_lib::lemma_len_subset(grown, whole);
            assert(grown.len() == table_ids(mp).len() + 1);
            assert(mp.active <= MAX_TEXTURES - 1);
            assert(!draw_flushes(mp, id));
            let mq = with_quad(mp, c);
            assert(table_entries(mq) =~= table_entries(mp).push(id));
            assert(table_distinct(mq)) by {
                let e = table_entries(mp);
                assert forall|i: int, j: int|
                    0 <= i < j < e.push(id).len() implies e.push(id)[i] != e.push(id)[j] by {
                    if j < e.len() {
                    } else {
                        assert(e.push(id)[j] == id);
                        if e[i] == id {
                            assert(e.contains(id));
                            assert(table_ids(mp).contains(id));
                        }
                    }
                }
            }
            assert(table_ids(mq) =~= grown) by {
                assert forall|x: TextureID| table_ids(mq).contains(x)
                    implies grown.contains(x) by {
                    let e2 = table_entries(mq);
                    let j = choose|j: int| 0 <= j < e2.len() && e2[j] == x;
                    if j < e2.len() - 1 {
                        assert(table_entries(mp)[j] == x);
                        assert(table_entries(mp).contains(x));
                    }
                }
                assert forall|x: TextureID| grown.contains(x)
                    implies table_ids(mq).contains(x) by {
                    let e2 = table_entries(mq);
                    if x == id {
                        assert(e2[e2.len() - 1] == x);
                    } else {
                        let e = table_entries(mp);
                        let j = choose|j: int| 0 <= j < e.len() && e[j] == x;
                        assert(e2[j] == x);
                    }
                    assert(e2.contains(x));
                }
            }
            assert(run_batch(m, calls) == mq);
        }
    }
}

/// Any run of at most `MAX_QUADS` draw calls on a fresh batch, with however
/// many repeated textures but at most `MAX_TEXTURES − 1` distinct ones,
/// forces no flush, and the quad count afterward equals the number of calls.
pub proof fn lemma_draws_within_capacity_never_flush(m: BatchModel, calls: Seq<DrawCall>)
    requires
        m.wf(),
        m.n_quads == 0,
        m.active == 1,
        calls.len() <= MAX_QUADS,
        call_ids(calls).len() <= MAX_TEXTURES - 1,
    ensures
        flush_count(m, calls) == 0,
        run_batch(m, calls).n_quads == calls.len(),
{
    assert(table_entries(m) =~= Seq::<TextureID>::empty());
    assert(table_ids(m) =~= Set::<TextureID>::empty());
    assert(table_ids(m).union(call_ids(calls)) =~= call_ids(calls));
    lemma_run_within_capacity(m, calls);
}

/// After exactly `MAX_QUADS + 1` draw calls on a fresh batch, precisely one
/// implicit flush has occurred — before the final quad — and the quad count
/// stands at one, the final quad alone.
pub proof fn lemma_overflow_draw_flushes_once(m: BatchModel, calls: Seq<DrawCall>)
    requires
        m.wf(),
        m.n_quads == 0,
        m.active == 1,
        calls.len() == MAX_QUADS + 1,
        call_ids(calls).len() <= MAX_TEXTURES - 1,
    ensures
        flush_count(m, calls) == 1,
        flush_count(m, calls.drop_last()) == 0,
        draw_flushes(run_batch(m, calls.drop_last()), calls.last().texture.id),
        run_batch(m, calls).n_quads == 1,
{
    let prefix = calls.drop_last();
    let c = calls.last();
    assert(call_ids(prefix).subset_of(call_ids(calls))) by {
        assert forall|x: TextureID| call_ids(prefix).contains(x)
            implies call_ids(calls).contains(x) by {
            let ms = prefix.map_values(|k: DrawCall| k.texture.id);
            let j = choose|j: int| 0 <= j < ms.len() && ms[j] == x;
            assert(calls.map_values(|k: DrawCall| k.texture.id)[j] == x);
        }
    }
    vstd::set_lib::lemma_len_subset(call_ids(prefix), call_ids(calls));
    lemma_draws_within_capacity_never_flush(m, prefix);
    let mp = run_batch(m, prefix);
    assert(mp.n_quads == MAX_QUADS);
    assert(draw_flushes(mp, c.texture.id));
    assert(run_batch(m, calls) == with_quad(mp.reset(), c));
}

/// Drawing the same texture twice within one batch reuses the slot the
/// first draw resolved, and the bound-slot count does not grow.
pub proof fn lemma_same_texture_reuses_slot(m: BatchModel, a: DrawCall, b: DrawCall)
    requires
        m.wf(),
        b.texture.id == a.texture.id,
        m.n_quads + 2 <= MAX_QUADS,
        !draw_flushes(m, a.texture.id),
    ensures
        ({
            let m1 = draw_step(m, a);
            &&& !draw_flushes(m1, b.texture.id)
            &&& draw_step(m1, b).active == m1.active
            &&& chosen_slot(m1, b.texture.id) == chosen_slot(m, a.texture.id)
        }),
{
    let id = a.texture.id;
    let m1 = with_quad(m, a);
    assert(draw_step(m, a) == m1);
    match find_slot(m, id) {
        Some(i) => {
            assert(m1.slots == m.slots && m1.active == m.active);
            assert(find_slot(m1, id) == Some(i));
        },
        None => {
            assert(m.active < MAX_TEXTURES);
            lemma_scan_after_append(m.slots, m.active, id, 1);
            assert(find_slot(m1, id) == Some(m.active));
        },
    }
}

/// With the slot table one entry short of full, drawing one more distinct
/// texture assigns it the last free slot — the old bound-slot count — and
/// leaves the table exactly full.
pub proof fn lemma_new_texture_fills_last_slot(m: BatchModel, c: DrawCall)
    requires
        m.wf(),
        m.active == MAX_TEXTURES - 1,
        find_slot(m, c.texture.id) is None,
        m.n_quads < MAX_QUADS,
    ensures
        !draw_flushes(m, c.texture.id),
        chosen_slot(m, c.texture.id) == MAX_TEXTURES - 1,
        draw_step(m, c).active == MAX_TEXTURES,
{
}

/// A draw rotated by zero radians (sine 0, cosine 1) appends exactly the
/// vertices an unrotated draw appends.
pub proof fn lemma_zero_rotation_draws_like_none(call: DrawCall, slot: int)
    requires
        call.rotation == Some(Rotation { sin: 0i64, cos: FX_ONE as i64 }),
    ensures
        quad_vertex_values(call, slot)
            == quad_vertex_values(DrawCall { rotation: None, ..call }, slot),
{
    let plain = DrawCall { rotation: None, ..call };
    let corners = crate::geometry::corner_values(call.pos, call.size, call.origin);
    crate::geo::lemma_rotate_zero_is_identity(corners[0], call.pos);
    crate::geo::lemma_rotate_zero_is_identity(corners[1], call.pos);
    crate::geo::lemma_rotate_zero_is_identity(corners[2], call.pos);
    crate::geo::lemma_rotate_zero_is_identity(corners[3], call.pos);
    assert(quad_vertex_values(call, slot) =~= quad_vertex_values(plain, slot));
}

/// A source rectangle covering the whole texture produces the unit texture
/// coordinate square: corners (0, 0) and (1, 1) in fixed point.
pub proof fn lemma_full_source_rect_unit_uv(call: DrawCall, slot: int)
    requires
        call.texture.wf(),
        call.src_pos == (V2 { x: 0, y: 0 }),
        call.src_size == (V2 {
            x: ((call.texture.width as int) * (FX_ONE as int)) as i64,
            y: ((call.texture.height as int) * (FX_ONE as int)) as i64,
        }),
    ensures
        ({
            let vs = quad_vertex_values(call, slot);
            &&& vs[0].tex_coords == (V2 { x: 0, y: 0 })
            &&& vs[1].tex_coords == (V2 { x: FX_ONE as i64, y: 0 })
            &&& vs[2].tex_coords == (V2 { x: FX_ONE as i64, y: FX_ONE as i64 })
            &&& vs[3].tex_coords == (V2 { x: 0, y: FX_ONE as i64 })
        }),
{
    let w = call.texture.width as int;
    let h = call.texture.height as int;
    assert(0int / w == 0) by {
        vstd::arithmetic::div_mod::lemma_div_of0(w);
    }
    assert(0int / h == 0) by {
        vstd::arithmetic::div_mod::lemma_div_of0(h);
    }
    assert(w * (FX_ONE as int) == (FX_ONE as int) * w) by {
        vstd::arithmetic::mul::lemma_mul_is_commutative(w, FX_ONE as int);
    }
    assert(h * (FX_ONE as int) == (FX_ONE as int) * h) by {
        vstd::arithmetic::mul::lemma_mul_is_commutative(h, FX_ONE as int);
    }
    assert(((FX_ONE as int) * w) / w == FX_ONE as int) by {
        vstd::arithmetic::div_mod::lemma_div_by_multiple(FX_ONE as int, w);
    }
    assert(((FX_ONE as int) * h) / h == FX_ONE as int) by {
        vstd::arithmetic::div_mod::lemma_div_by_multiple(FX_ONE as int, h);
    }
    assert(w * (FX_ONE as int) >= 0) by (nonlinear_arith)
        requires w >= 1;
    assert(h * (FX_ONE as int) >= 0) by (nonlinear_arith)
        requires h >= 1;
}

} // verus!
