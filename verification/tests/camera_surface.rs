//! Camera projection, resize guards and present-error policy.

use luna::camera::{transform_point, OrthographicCamera, PerspectiveCamera, PixelSize};
use luna::fx::FX_ONE;
use luna::geo::V3;
use luna::renderer2d::{recovery_action, PresentError, RecoveryAction, Renderer2D};

fn px(v: i64) -> i64 {
    v * FX_ONE
}

fn stock_camera() -> OrthographicCamera {
    OrthographicCamera {
        pos: V3 { x: 0, y: 0, z: px(1) },
        dir: V3 { x: 0, y: 0, z: -FX_ONE },
        up: V3 { x: 0, y: FX_ONE, z: 0 },
        size: PixelSize { width: 800, height: 600 },
        znear: 6554,
        zfar: px(100),
    }
}

#[test]
fn viewport_center_projects_to_ndc_origin() {
    // Orthographic camera at (0, 0, 1) looking toward -z over an 800x600
    // viewport: the pixel (400, 300) lands exactly at the center of
    // normalized device coordinates.
    let cam = stock_camera();
    let vp = cam.build_view_projection_matrix();
    let clip = transform_point(&vp, &V3 { x: px(400), y: px(300), z: 0 });
    assert_eq!(clip.x, 0);
    assert_eq!(clip.y, 0);
    assert_eq!(clip.w, clip.den);
    assert!(clip.den > 0);
}

#[test]
fn viewport_corners_project_to_ndc_corners() {
    let cam = stock_camera();
    let vp = cam.build_view_projection_matrix();
    let top_left = transform_point(&vp, &V3 { x: 0, y: 0, z: 0 });
    // Clip x of the pixel-space origin is -1, its clip y is +1.
    assert_eq!(top_left.x, -top_left.den);
    assert_eq!(top_left.y, top_left.den);
    let bottom_right = transform_point(&vp, &V3 { x: px(800), y: px(600), z: 0 });
    assert_eq!(bottom_right.x, bottom_right.den);
    assert_eq!(bottom_right.y, -bottom_right.den);
}

#[test]
fn camera_translate_moves_position_only() {
    let mut cam = stock_camera();
    cam.translate(px(10), -px(4));
    assert_eq!(cam.pos, V3 { x: px(10), y: -px(4), z: px(1) });
    assert_eq!(cam.size, PixelSize { width: 800, height: 600 });
}

#[test]
fn translated_camera_still_centers_its_viewport() {
    let mut cam = stock_camera();
    cam.translate(px(100), px(50));
    let vp = cam.build_view_projection_matrix();
    let clip = transform_point(&vp, &V3 { x: px(500), y: px(350), z: 0 });
    assert_eq!(clip.x, 0);
    assert_eq!(clip.y, 0);
}

#[test]
fn perspective_matrix_has_projective_last_row() {
    let cam = PerspectiveCamera {
        pos: V3 { x: 0, y: 0, z: 0 },
        dir: V3 { x: 0, y: 0, z: -FX_ONE },
        up: V3 { x: 0, y: FX_ONE, z: 0 },
        aspect: 87381,  // ~4/3 in fixed point
        focal: 113512,  // ~cot(30 degrees)
        znear: 6554,
        zfar: px(100),
    };
    let vp = cam.build_view_projection_matrix();
    assert!(vp.den > 0);
    // The last row carries the perspective divide: w comes from -z alone.
    assert_eq!(vp.n30, 0);
    assert_eq!(vp.n31, 0);
    assert!(vp.n32 != 0);
    assert_eq!(vp.n33, 0);
}

#[test]
fn resize_to_zero_is_ignored() {
    let mut r = Renderer2D::init(800, 600);
    let reconfigured = r.resize(PixelSize { width: 0, height: 0 });
    assert!(!reconfigured);
    assert_eq!(r.surface_size(), PixelSize { width: 800, height: 600 });
    let reconfigured = r.resize(PixelSize { width: 0, height: 600 });
    assert!(!reconfigured);
    assert_eq!(r.surface_size(), PixelSize { width: 800, height: 600 });
}

#[test]
fn resize_then_render_reconfigures_and_flushes() {
    let mut r = Renderer2D::init(800, 600);
    let reconfigured = r.resize(PixelSize { width: 1024, height: 768 });
    assert!(reconfigured);
    assert_eq!(r.surface_size(), PixelSize { width: 1024, height: 768 });
    let packet = r.render();
    assert_eq!(packet.quad_count, 0);
    assert_eq!(packet.index_count, 0);
    assert_eq!(r.surface_size(), PixelSize { width: 1024, height: 768 });
    assert_eq!(r.n_quads_drawn, 0);
    assert_eq!(r.active_textures, 1);
}

#[test]
fn lost_surface_is_reconfigured() {
    assert_eq!(
        recovery_action(&PresentError::Lost),
        RecoveryAction::ReconfigureSurface
    );
}

#[test]
fn out_of_memory_aborts() {
    assert_eq!(recovery_action(&PresentError::OutOfMemory), RecoveryAction::Abort);
}

#[test]
fn other_present_errors_skip_the_frame() {
    assert_eq!(recovery_action(&PresentError::Other), RecoveryAction::SkipFrame);
}
