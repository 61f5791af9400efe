//! Batching behavior: capacities, implicit flushes, slot reuse, geometry.

use luna::fx::FX_ONE;
use luna::geo::{Rotation, V2};
use luna::renderer2d::{build_quad_indices, Renderer2D, MAX_INDICES, MAX_QUADS, MAX_TEXTURES};
use luna::resource_manager::{ResourceManager, WHITE_TEXTURE_ID};
use luna::texture::{Sprite, Texture};

fn test_texture(id: usize, width: u32, height: u32) -> Texture {
    Texture { id, width, height }
}

fn px(v: i64) -> i64 {
    v * FX_ONE
}

#[test]
fn no_flush_within_capacity() {
    let mut r = Renderer2D::init(800, 600);
    let tex = test_texture(1, 32, 32);
    for i in 0..MAX_QUADS {
        let flushed = r.draw_quad_texture(
            &V2 { x: px(i as i64 % 100), y: px(10) },
            &V2 { x: px(32), y: px(32) },
            &tex,
        );
        assert!(flushed.is_none());
    }
    assert_eq!(r.n_quads_drawn, MAX_QUADS);
}

#[test]
fn overflow_draw_flushes_exactly_once() {
    let mut r = Renderer2D::init(800, 600);
    let tex = test_texture(1, 32, 32);
    let mut flushes = 0;
    for _ in 0..(MAX_QUADS + 1) {
        let flushed = r.draw_quad_texture(
            &V2 { x: px(50), y: px(50) },
            &V2 { x: px(16), y: px(16) },
            &tex,
        );
        if let Some(packet) = flushed {
            flushes += 1;
            assert_eq!(packet.quad_count, MAX_QUADS);
            assert_eq!(packet.index_count, MAX_QUADS * 6);
        }
    }
    assert_eq!(flushes, 1);
    assert_eq!(r.n_quads_drawn, 1);
}

#[test]
fn same_texture_reuses_slot() {
    let mut r = Renderer2D::init(800, 600);
    let tex = test_texture(7, 64, 64);
    r.draw_quad_texture(&V2 { x: 0, y: 0 }, &V2 { x: px(8), y: px(8) }, &tex);
    assert_eq!(r.active_textures, 2);
    let first_slot = r.vertex_data[0].tex_idx;
    r.draw_quad_texture(&V2 { x: px(9), y: 0 }, &V2 { x: px(8), y: px(8) }, &tex);
    assert_eq!(r.active_textures, 2);
    let second_slot = r.vertex_data[4].tex_idx;
    assert_eq!(first_slot, second_slot);
    assert_eq!(first_slot, 1);
}

#[test]
fn distinct_textures_fill_slots_in_order() {
    let mut r = Renderer2D::init(800, 600);
    for id in 1..MAX_TEXTURES {
        let tex = test_texture(id, 16, 16);
        let flushed = r.draw_quad_texture(
            &V2 { x: 0, y: 0 }, &V2 { x: px(4), y: px(4) }, &tex);
        assert!(flushed.is_none());
        assert_eq!(r.active_textures, id + 1);
        assert_eq!(r.vertex_data[4 * (id - 1)].tex_idx, id as i32);
    }
    assert_eq!(r.active_textures, MAX_TEXTURES);
}

#[test]
fn last_free_slot_is_assigned_before_table_is_full() {
    let mut r = Renderer2D::init(800, 600);
    // Bind MAX_TEXTURES - 2 distinct textures: active count reaches 15.
    for id in 1..(MAX_TEXTURES - 1) {
        r.draw_quad_texture(
            &V2 { x: 0, y: 0 }, &V2 { x: px(4), y: px(4) }, &test_texture(id, 16, 16));
    }
    assert_eq!(r.active_textures, MAX_TEXTURES - 1);
    // One more distinct texture takes the last slot, index 15.
    let flushed = r.draw_quad_texture(
        &V2 { x: 0, y: 0 }, &V2 { x: px(4), y: px(4) },
        &test_texture(MAX_TEXTURES - 1, 16, 16));
    assert!(flushed.is_none());
    assert_eq!(r.active_textures, MAX_TEXTURES);
    assert_eq!(r.vertex_data[4 * (MAX_TEXTURES - 2)].tex_idx, (MAX_TEXTURES - 1) as i32);
}

#[test]
fn slot_exhaustion_forces_flush() {
    let mut r = Renderer2D::init(800, 600);
    for id in 1..MAX_TEXTURES {
        r.draw_quad_texture(
            &V2 { x: 0, y: 0 }, &V2 { x: px(4), y: px(4) }, &test_texture(id, 16, 16));
    }
    assert_eq!(r.active_textures, MAX_TEXTURES);
    let flushed = r.draw_quad_texture(
        &V2 { x: 0, y: 0 }, &V2 { x: px(4), y: px(4) },
        &test_texture(MAX_TEXTURES, 16, 16));
    assert!(flushed.is_some());
    let packet = flushed.unwrap();
    assert_eq!(packet.quad_count, MAX_TEXTURES - 1);
    assert_eq!(r.n_quads_drawn, 1);
    assert_eq!(r.active_textures, 2);
    assert_eq!(r.vertex_data[0].tex_idx, 1);
}

#[test]
fn flush_bindings_are_padded_with_default() {
    let mut r = Renderer2D::init(800, 600);
    r.draw_quad_texture(&V2 { x: 0, y: 0 }, &V2 { x: px(4), y: px(4) }, &test_texture(3, 8, 8));
    r.draw_quad_texture(&V2 { x: 0, y: 0 }, &V2 { x: px(4), y: px(4) }, &test_texture(9, 8, 8));
    let packet = r.flush();
    assert_eq!(packet.texture_ids.len(), MAX_TEXTURES);
    assert_eq!(packet.texture_ids[0], WHITE_TEXTURE_ID);
    assert_eq!(packet.texture_ids[1], 3);
    assert_eq!(packet.texture_ids[2], 9);
    for i in 3..MAX_TEXTURES {
        assert_eq!(packet.texture_ids[i], WHITE_TEXTURE_ID);
    }
    assert_eq!(r.n_quads_drawn, 0);
    assert_eq!(r.active_textures, 1);
}

#[test]
fn quad_vertices_are_exact() {
    let mut r = Renderer2D::init(800, 600);
    let tex = test_texture(1, 32, 32);
    let origin = V2 { x: FX_ONE / 2, y: FX_ONE / 2 };
    r.draw_quad_texture_ext(
        &V2 { x: px(100), y: px(100) },
        &V2 { x: px(32), y: px(32) },
        &tex,
        &V2 { x: 0, y: 0 },
        &V2 { x: px(32), y: px(32) },
        &origin,
        None,
    );
    let l = px(100) - px(16);
    let t = px(100) - px(16);
    let rr = l + px(32);
    let b = t + px(32);
    assert_eq!(r.vertex_data[0].pos, V2 { x: l, y: t });
    assert_eq!(r.vertex_data[1].pos, V2 { x: rr, y: t });
    assert_eq!(r.vertex_data[2].pos, V2 { x: rr, y: b });
    assert_eq!(r.vertex_data[3].pos, V2 { x: l, y: b });
    assert_eq!(r.vertex_data[0].tex_coords, V2 { x: 0, y: 0 });
    assert_eq!(r.vertex_data[1].tex_coords, V2 { x: FX_ONE, y: 0 });
    assert_eq!(r.vertex_data[2].tex_coords, V2 { x: FX_ONE, y: FX_ONE });
    assert_eq!(r.vertex_data[3].tex_coords, V2 { x: 0, y: FX_ONE });
    for k in 0..4 {
        assert_eq!(r.vertex_data[k].tex_idx, 1);
    }
}

#[test]
fn zero_rotation_matches_no_rotation() {
    let tex = test_texture(1, 16, 16);
    let mut plain = Renderer2D::init(800, 600);
    let mut rotated = Renderer2D::init(800, 600);
    let pos = V2 { x: px(40), y: px(30) };
    let size = V2 { x: px(10), y: px(20) };
    let origin = V2 { x: FX_ONE / 4, y: FX_ONE / 3 };
    let src_pos = V2 { x: px(2), y: px(3) };
    let src_size = V2 { x: px(5), y: px(7) };
    plain.draw_quad_texture_ext(&pos, &size, &tex, &src_pos, &src_size, &origin, None);
    rotated.draw_quad_texture_ext(
        &pos, &size, &tex, &src_pos, &src_size, &origin,
        Some(Rotation { sin: 0, cos: FX_ONE }),
    );
    for k in 0..4 {
        assert_eq!(plain.vertex_data[k], rotated.vertex_data[k]);
    }
}

#[test]
fn quarter_turn_rotation_is_exact() {
    // sin 90° = 1, cos 90° = 0: a corner at offset (dx, dy) from the anchor
    // lands at (-dy, dx) from the anchor.
    let point = V2 { x: px(12), y: px(5) };
    let anchor = V2 { x: px(10), y: px(3) };
    let turned = luna::geo::v2_rotate_about_v2(&point, &anchor, FX_ONE, 0);
    assert_eq!(turned, V2 { x: px(10) - px(2), y: px(3) + px(2) });
}

#[test]
fn rotation_formula_matches_by_components() {
    // sin 30° and cos 30° approximated in fixed point; the result is the
    // formula's value bit for bit, rounding toward zero at each product.
    let s: i64 = 32768; // 0.5
    let c: i64 = 56756; // ~0.866
    let point = V2 { x: px(7), y: px(9) };
    let anchor = V2 { x: px(4), y: px(5) };
    let dx = point.x - anchor.x;
    let dy = point.y - anchor.y;
    let expected = V2 {
        x: (dx * c) / FX_ONE - (dy * s) / FX_ONE + anchor.x,
        y: (dx * s) / FX_ONE + (dy * c) / FX_ONE + anchor.y,
    };
    let turned = luna::geo::v2_rotate_about_v2(&point, &anchor, s, c);
    assert_eq!(turned, expected);
}

#[test]
fn full_source_rect_spans_unit_uv() {
    let mut r = Renderer2D::init(800, 600);
    let tex = test_texture(1, 64, 48);
    r.draw_quad_texture(&V2 { x: 0, y: 0 }, &V2 { x: px(64), y: px(48) }, &tex);
    assert_eq!(r.vertex_data[0].tex_coords, V2 { x: 0, y: 0 });
    assert_eq!(r.vertex_data[2].tex_coords, V2 { x: FX_ONE, y: FX_ONE });
}

#[test]
fn sub_rectangle_uv_is_pixel_ratio() {
    let mut r = Renderer2D::init(800, 600);
    let tex = test_texture(1, 64, 64);
    r.draw_quad_texture_ext(
        &V2 { x: 0, y: 0 },
        &V2 { x: px(16), y: px(16) },
        &tex,
        &V2 { x: px(16), y: px(32) },
        &V2 { x: px(16), y: px(16) },
        &V2 { x: 0, y: 0 },
        None,
    );
    // 16/64 = 0.25, 32/64 = 0.5 in fixed point.
    assert_eq!(r.vertex_data[0].tex_coords, V2 { x: FX_ONE / 4, y: FX_ONE / 2 });
    assert_eq!(r.vertex_data[2].tex_coords, V2 { x: FX_ONE / 2, y: FX_ONE / 4 * 3 });
}

#[test]
fn draw_sprite_uses_texture_dimensions_and_scale() {
    let mut registry = ResourceManager::new();
    let id = registry.register_texture(32, 16);
    let sprite = Sprite::new(id, V2 { x: 0, y: 0 }, V2 { x: 2 * FX_ONE, y: FX_ONE / 2 });
    let mut r = Renderer2D::init(800, 600);
    r.draw_sprite(&sprite, &V2 { x: px(5), y: px(6) }, &registry);
    // Size is (32 * 2, 16 / 2) pixels; origin of a plain sprite draw is the
    // top-left corner.
    assert_eq!(r.vertex_data[0].pos, V2 { x: px(5), y: px(6) });
    assert_eq!(r.vertex_data[2].pos, V2 { x: px(5) + px(64), y: px(6) + px(8) });
}

#[test]
fn draw_sprite_ext_scales_and_anchors() {
    let mut registry = ResourceManager::new();
    let id = registry.register_texture(64, 64);
    let sprite = Sprite::new(
        id, V2 { x: FX_ONE / 2, y: FX_ONE / 2 }, V2 { x: FX_ONE, y: FX_ONE });
    let mut r = Renderer2D::init(800, 600);
    r.draw_sprite_ext(
        &sprite,
        &V2 { x: px(100), y: px(100) },
        &V2 { x: px(32), y: px(32) },
        &V2 { x: 0, y: 0 },
        &V2 { x: px(32), y: px(32) },
        None,
        &registry,
    );
    assert_eq!(r.vertex_data[0].pos, V2 { x: px(84), y: px(84) });
    assert_eq!(r.vertex_data[2].pos, V2 { x: px(116), y: px(116) });
}

#[test]
fn index_pattern_covers_two_triangles_per_quad() {
    let indices = build_quad_indices();
    assert_eq!(indices.len(), MAX_INDICES);
    assert_eq!(&indices[0..6], &[0, 1, 3, 1, 2, 3]);
    assert_eq!(&indices[6..12], &[4, 5, 7, 5, 6, 7]);
    let base = ((MAX_QUADS - 1) * 4) as u16;
    assert_eq!(
        &indices[MAX_INDICES - 6..],
        &[base, base + 1, base + 3, base + 1, base + 2, base + 3]
    );
}

#[test]
fn quarter_turn_quad_vertices_are_exact() {
    // A 10x10 quad anchored at its top-left corner, turned a quarter turn
    // about the anchor: (anchor + (dx, dy)) lands at (anchor + (-dy, dx)).
    let mut r = Renderer2D::init(800, 600);
    let tex = test_texture(1, 10, 10);
    let anchor = V2 { x: px(50), y: px(40) };
    r.draw_quad_texture_ext(
        &anchor,
        &V2 { x: px(10), y: px(10) },
        &tex,
        &V2 { x: 0, y: 0 },
        &V2 { x: px(10), y: px(10) },
        &V2 { x: 0, y: 0 },
        Some(Rotation { sin: FX_ONE, cos: 0 }),
    );
    assert_eq!(r.vertex_data[0].pos, anchor);
    assert_eq!(r.vertex_data[1].pos, V2 { x: px(50), y: px(50) });
    assert_eq!(r.vertex_data[2].pos, V2 { x: px(40), y: px(50) });
    assert_eq!(r.vertex_data[3].pos, V2 { x: px(40), y: px(40) });
}

#[test]
fn bottom_right_pivot_puts_the_quad_above_and_left() {
    let mut r = Renderer2D::init(800, 600);
    let tex = test_texture(1, 8, 8);
    r.draw_quad_texture_ext(
        &V2 { x: px(20), y: px(20) },
        &V2 { x: px(8), y: px(8) },
        &tex,
        &V2 { x: 0, y: 0 },
        &V2 { x: px(8), y: px(8) },
        &V2 { x: FX_ONE, y: FX_ONE },
        None,
    );
    assert_eq!(r.vertex_data[0].pos, V2 { x: px(12), y: px(12) });
    assert_eq!(r.vertex_data[2].pos, V2 { x: px(20), y: px(20) });
}
