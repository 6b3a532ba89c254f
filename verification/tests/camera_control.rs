use rust_renderer::camera::CameraState;
use rust_renderer::camera::Key;
use rust_renderer::camera::RotationSense;
use rust_renderer::camera::ZOOM_MAX_MILLI;
use rust_renderer::camera::ZOOM_MIN_MILLI;
use rust_renderer::RendererContext;

#[test]
fn initial_camera_sits_at_isometric_home() {
    let c = CameraState::initial();
    assert_eq!(c.pitch_mdeg, 35_264);
    assert_eq!(c.yaw_mdeg, -45_000);
    assert_eq!(c.pan_x_milli, 0);
    assert_eq!(c.pan_y_milli, 0);
    assert_eq!(c.pan_z_milli, 0);
    assert_eq!(c.zoom_milli, 15_000);
}

#[test]
fn zoom_in_clamps_at_minimum_and_stays_there() {
    let mut ctx = RendererContext::new();
    // 15 units down to the 1-unit floor takes 28 half-unit steps.
    for _ in 0..28 {
        ctx.on_key(Key::ArrowUp, true);
    }
    assert_eq!(ctx.camera.zoom_milli, ZOOM_MIN_MILLI);
    // Further zooming in never drives the distance below the minimum.
    for _ in 0..50 {
        ctx.on_key(Key::ArrowUp, true);
        assert_eq!(ctx.camera.zoom_milli, ZOOM_MIN_MILLI);
    }
}

#[test]
fn zoom_out_clamps_at_maximum_and_stays_there() {
    let mut ctx = RendererContext::new();
    for _ in 0..170 {
        ctx.on_key(Key::ArrowDown, true);
    }
    assert_eq!(ctx.camera.zoom_milli, ZOOM_MAX_MILLI);
    for _ in 0..50 {
        ctx.on_key(Key::ArrowDown, true);
        assert_eq!(ctx.camera.zoom_milli, ZOOM_MAX_MILLI);
    }
}

#[test]
fn zoom_steps_by_half_a_unit() {
    let mut ctx = RendererContext::new();
    ctx.on_key(Key::ArrowUp, true);
    assert_eq!(ctx.camera.zoom_milli, 14_500);
    ctx.on_key(Key::ArrowDown, true);
    assert_eq!(ctx.camera.zoom_milli, 15_000);
}

#[test]
fn unshifted_arrows_pan_by_a_tenth() {
    let mut ctx = RendererContext::new();
    ctx.on_key(Key::ArrowRight, false);
    ctx.on_key(Key::ArrowRight, false);
    ctx.on_key(Key::ArrowLeft, false);
    ctx.on_key(Key::ArrowUp, false);
    ctx.on_key(Key::ArrowDown, false);
    ctx.on_key(Key::ArrowDown, false);
    assert_eq!(ctx.camera.pan_x_milli, 100);
    assert_eq!(ctx.camera.pan_y_milli, -100);
    assert_eq!(ctx.camera.pan_z_milli, 0);
    // Panning does not touch zoom or rotation.
    assert_eq!(ctx.camera.zoom_milli, 15_000);
    assert_eq!(ctx.camera.pitch_mdeg, 35_264);
}

#[test]
fn presets_snap_rotation_pan_and_zoom() {
    let mut ctx = RendererContext::new();
    ctx.on_key(Key::ArrowRight, false);
    ctx.on_key(Key::ArrowUp, true);

    ctx.on_key(Key::Key2, false);
    assert_eq!(ctx.camera.pitch_mdeg, 0);
    assert_eq!(ctx.camera.yaw_mdeg, -90_000);
    assert_eq!(ctx.camera.pan_x_milli, 0);
    assert_eq!(ctx.camera.zoom_milli, 15_000);

    ctx.on_key(Key::Key3, false);
    assert_eq!(ctx.camera.pitch_mdeg, 90_000);
    assert_eq!(ctx.camera.yaw_mdeg, 0);

    ctx.on_key(Key::Key1, false);
    assert_eq!(ctx.camera.pitch_mdeg, 0);
    assert_eq!(ctx.camera.yaw_mdeg, 0);

    ctx.on_key(Key::Key4, false);
    assert_eq!(ctx.camera.pitch_mdeg, 35_264);
    assert_eq!(ctx.camera.yaw_mdeg, -45_000);
}

#[test]
fn other_keys_change_nothing() {
    let mut ctx = RendererContext::new();
    let before = ctx.camera;
    ctx.on_key(Key::Other, false);
    ctx.on_key(Key::Other, true);
    assert_eq!(ctx.camera, before);
}

#[test]
fn drag_rotates_at_fifty_millidegrees_per_pixel() {
    let mut ctx = RendererContext::new();
    ctx.on_key(Key::Key1, false);
    ctx.on_pointer_down(100, 100);
    ctx.on_pointer_move(120, 90);
    // Horizontal delta drives yaw, vertical delta drives pitch.
    assert_eq!(ctx.camera.yaw_mdeg, 20 * 50);
    assert_eq!(ctx.camera.pitch_mdeg, -10 * 50);
    // The drag re-anchors: a further move measures from the last point.
    ctx.on_pointer_move(121, 90);
    assert_eq!(ctx.camera.yaw_mdeg, 21 * 50);
}

#[test]
fn moves_outside_a_drag_do_nothing() {
    let mut ctx = RendererContext::new();
    let before = ctx.camera;
    ctx.on_pointer_move(500, 500);
    assert_eq!(ctx.camera, before);
    ctx.on_pointer_down(0, 0);
    ctx.on_pointer_up();
    ctx.on_pointer_move(500, 500);
    assert_eq!(ctx.camera, before);
}

#[test]
fn frame_transforms_carry_state_and_rotation_senses() {
    let mut ctx = RendererContext::new();
    ctx.on_key(Key::ArrowRight, false);
    let plan = ctx.plan_frame();
    let t = plan.transforms;
    assert_eq!(t.pitch_mdeg, 35_264);
    assert_eq!(t.yaw_mdeg, -45_000);
    assert_eq!(t.eye_distance_milli, 15_000);
    assert_eq!(t.pan_milli.x, 100);
    assert_eq!(t.pan_milli.y, 0);
    assert_eq!(t.pan_milli.z, 0);
    // Pan is carried by the inverse rotation, light and eye by the
    // forward rotation: the asymmetry is part of the contract.
    assert_eq!(t.pan_sense, RotationSense::Inverse);
    assert_eq!(t.light_sense, RotationSense::Forward);
    assert_eq!(t.eye_sense, RotationSense::Forward);
    assert_eq!((t.light_canonical_milli.x, t.light_canonical_milli.y, t.light_canonical_milli.z), (0, 5_000, 5_000));
    assert_eq!((t.eye_canonical_milli.x, t.eye_canonical_milli.y, t.eye_canonical_milli.z), (0, 0, 2_000));
}
