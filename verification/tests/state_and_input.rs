//! The texture registry, fixed-point scalars, input handling and the world.

use luna::camera::PixelSize;
use luna::fx::{fx_div_int, fx_mul, FX_COORD_LIMIT, FX_ONE};
use luna::geo::V2;
use luna::input::{
    Input, InputEvent, InputSubsystem, KeyAction, SystemEvent, TextChar, WindowEvent,
    KEY_BACK, KEY_LSHIFT,
};
use luna::components::{HealthComponent, SpriteComponent, TransformComponent};
use luna::resource_manager::{ResourceManager, WHITE_TEXTURE_ID};
use luna::texture::Sprite;
use luna::window::WindowConfig;
use luna::world::{Entity, World};

#[test]
fn fixed_point_products_round_toward_zero() {
    // 3.0 * 0.5 == 1.5 exactly.
    assert_eq!(fx_mul(3 * FX_ONE, FX_ONE / 2), FX_ONE + FX_ONE / 2);
    assert_eq!(fx_mul(-3 * FX_ONE, FX_ONE / 2), -(FX_ONE + FX_ONE / 2));
    // The smallest positive value squared underflows to zero, from both
    // sides: rounding is toward zero, not downward.
    assert_eq!(fx_mul(1, 1), 0);
    assert_eq!(fx_mul(-1, 1), 0);
    assert_eq!(fx_mul(FX_ONE, FX_ONE), FX_ONE);
    assert_eq!(fx_mul(-FX_ONE, FX_ONE), -FX_ONE);
}

#[test]
fn fixed_point_pixel_division_rounds_toward_zero() {
    assert_eq!(fx_div_int(FX_ONE, 2), FX_ONE / 2);
    assert_eq!(fx_div_int(-1, 2), 0);
    assert_eq!(fx_div_int(64 * FX_ONE, 64), FX_ONE);
}

#[test]
fn registry_reserves_id_zero_for_the_default_texture() {
    let registry = ResourceManager::new();
    assert_eq!(registry.n_textures(), 1);
    let white = registry.get_texture(WHITE_TEXTURE_ID);
    assert_eq!(white.id, WHITE_TEXTURE_ID);
    assert_eq!(white.width, 1);
    assert_eq!(white.height, 1);
}

#[test]
fn registry_ids_are_registration_order() {
    let mut registry = ResourceManager::new();
    let a = registry.register_texture(64, 32);
    let b = registry.register_texture(128, 128);
    assert_eq!(a, 1);
    assert_eq!(b, 2);
    assert_eq!(registry.get_texture(a).width, 64);
    assert_eq!(registry.get_texture(b).height, 128);
    assert_eq!(registry.get_textures().len(), 3);
}

#[test]
fn default_sprite_shows_the_default_texture() {
    let sprite = Sprite::default();
    assert_eq!(sprite.texture_id, 0);
    assert_eq!(sprite.origin, V2 { x: 0, y: 0 });
    assert_eq!(sprite.scale, V2 { x: FX_ONE, y: FX_ONE });
}

#[test]
fn key_press_is_recorded_once_per_hold() {
    let mut input = Input::new();
    input.handle_event(&InputEvent::Key { code: 30, pressed: true });
    input.handle_event(&InputEvent::Key { code: 30, pressed: true });
    assert_eq!(input.key_actions.len(), 1);
    assert_eq!(input.key_actions[0], KeyAction::Pressed(30));
    assert!(input.key_held[30]);
    input.handle_event(&InputEvent::Key { code: 30, pressed: false });
    assert_eq!(input.key_actions.len(), 2);
    assert_eq!(input.key_actions[1], KeyAction::Released(30));
    assert!(!input.key_held[30]);
}

#[test]
fn frame_update_clears_actions_but_not_held_keys() {
    let mut input = Input::new();
    input.handle_event(&InputEvent::Key { code: 4, pressed: true });
    input.handle_event(&InputEvent::Scroll { amount: FX_ONE });
    input.update();
    assert_eq!(input.key_actions.len(), 0);
    assert_eq!(input.scroll_diff, 0);
    assert!(input.key_held[4]);
}

#[test]
fn backspace_and_characters_enter_the_text_stream() {
    let mut input = Input::new();
    input.handle_event(&InputEvent::Character('h'));
    input.handle_event(&InputEvent::Key { code: KEY_BACK, pressed: true });
    input.handle_event(&InputEvent::Character('\r'));
    input.handle_event(&InputEvent::Character('\n'));
    input.handle_event(&InputEvent::Character('\u{8}'));
    input.handle_event(&InputEvent::Character('i'));
    assert_eq!(input.text.len(), 3);
    assert_eq!(input.text[0], TextChar::Char('h'));
    assert_eq!(input.text[1], TextChar::Back);
    assert_eq!(input.text[2], TextChar::Char('i'));
}

#[test]
fn cursor_moves_feed_the_mouse_diff() {
    let mut sys = InputSubsystem::new();
    sys.update(SystemEvent::Window(WindowEvent::Input(
        InputEvent::CursorMoved { x: 10 * FX_ONE, y: 20 * FX_ONE })));
    sys.update(SystemEvent::NewEvents);
    sys.update(SystemEvent::Window(WindowEvent::Input(
        InputEvent::CursorMoved { x: 13 * FX_ONE, y: 18 * FX_ONE })));
    assert_eq!(sys.mouse_pos(), Some(V2 { x: 13 * FX_ONE, y: 18 * FX_ONE }));
    assert_eq!(sys.mouse_diff(), V2 { x: 3 * FX_ONE, y: -2 * FX_ONE });
}

#[test]
fn scroll_accumulates_and_clamps() {
    let mut input = Input::new();
    input.handle_event(&InputEvent::Scroll { amount: FX_ONE });
    input.handle_event(&InputEvent::Scroll { amount: 2 * FX_ONE });
    assert_eq!(input.scroll_diff, 3 * FX_ONE);
    for _ in 0..3 {
        input.handle_event(&InputEvent::Scroll { amount: FX_COORD_LIMIT });
    }
    assert_eq!(input.scroll_diff, FX_COORD_LIMIT);
}

#[test]
fn subsystem_tracks_window_flags() {
    let mut sys = InputSubsystem::new();
    assert!(!sys.close_requested());
    sys.update(SystemEvent::Window(WindowEvent::CloseRequested));
    assert!(sys.close_requested());
    sys.update(SystemEvent::Window(WindowEvent::Resized(
        PixelSize { width: 1024, height: 768 })));
    assert_eq!(sys.window_resized(), Some(PixelSize { width: 1024, height: 768 }));
    assert_eq!(sys.resolution(), Some(PixelSize { width: 1024, height: 768 }));
    // A new burst clears the per-burst flags but keeps the known size.
    assert!(!sys.update(SystemEvent::NewEvents));
    assert!(!sys.close_requested());
    assert_eq!(sys.window_resized(), None);
    assert_eq!(sys.resolution(), Some(PixelSize { width: 1024, height: 768 }));
    assert!(sys.update(SystemEvent::MainEventsCleared));
}

#[test]
fn losing_focus_drops_input_state() {
    let mut sys = InputSubsystem::new();
    sys.update(SystemEvent::Window(WindowEvent::Input(
        InputEvent::Key { code: KEY_LSHIFT, pressed: true })));
    assert!(sys.held_shift());
    sys.update(SystemEvent::Window(WindowEvent::Focused(false)));
    assert!(!sys.held_shift());
    sys.update(SystemEvent::Window(WindowEvent::Focused(true)));
    assert!(!sys.held_shift());
    sys.update(SystemEvent::Window(WindowEvent::Input(
        InputEvent::MouseButton { button: 0, pressed: true })));
    assert!(sys.mouse_held(0));
    assert!(sys.mouse_pressed(0));
    assert!(!sys.mouse_released(0));
}

#[test]
fn world_entities_are_addressed_by_index() {
    let mut world = World::new();
    let player = Entity::builder()
        .add_sprite_component(SpriteComponent {
            sprite: Sprite::default(),
            draw_pos: V2 { x: 0, y: 0 },
        })
        .add_health_component(HealthComponent { health: 10 })
        .build();
    let id = world.add_entity(player);
    assert_eq!(id, 0);
    assert!(world.get_entity(id).is_some());
    assert!(world.get_entity(1).is_none());

    let mut moved = *world.get_entity(id).unwrap();
    moved.transform.position = V2 { x: 5 * FX_ONE, y: 7 * FX_ONE };
    world.set_entity(id, moved);
    world.update();
    let synced = world.get_entity(id).unwrap();
    assert_eq!(
        synced.sprite_component.unwrap().draw_pos,
        V2 { x: 5 * FX_ONE, y: 7 * FX_ONE }
    );
    assert_eq!(synced.health_component.unwrap().health, 10);
}

#[test]
fn window_config_defaults_to_800_by_600() {
    let config = WindowConfig::default();
    assert_eq!(config.width(), 800);
    assert_eq!(config.height(), 600);
    let custom = WindowConfig::new(1280, 720);
    assert_eq!(custom.width(), 1280);
    assert_eq!(custom.height(), 720);
}

#[test]
fn default_transform_is_identity() {
    let t = TransformComponent::default();
    assert_eq!(t.position, V2 { x: 0, y: 0 });
    assert_eq!(t.scale, V2 { x: FX_ONE, y: FX_ONE });
    assert!(t.rotation.is_none());
}
