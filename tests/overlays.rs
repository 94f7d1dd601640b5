use overlay_sync::{
    calculate_overlay_position, linear_segment, AbsolutePosition, Color, OverlayError,
    OverlayRegistry, PhysicalPosition, Position, RenderStep, Size, SurfaceSettings, SurfaceState,
    WindowPlacement, FRAME_LATENCY,
};

fn label(s: &str) -> String {
    s.to_string()
}

fn position_of(moves: &[overlay_sync::OverlayMove], name: &str) -> AbsolutePosition {
    moves.iter().find(|m| m.label == name).expect("label moved").position
}

#[test]
fn position_is_plain_sum() {
    let p = calculate_overlay_position(PhysicalPosition { x: 100, y: -40 }, &Position { x: 10, y: 20 });
    assert_eq!(p, AbsolutePosition { x: 110, y: -20 });
}

#[test]
fn position_sum_does_not_clamp() {
    let p = calculate_overlay_position(
        PhysicalPosition { x: i32::MAX, y: i32::MIN },
        &Position { x: i32::MAX, y: i32::MIN },
    );
    assert_eq!(p.x, 2 * (i32::MAX as i64));
    assert_eq!(p.y, 2 * (i32::MIN as i64));
}

#[test]
fn move_propagation() {
    let mut reg = OverlayRegistry::new();
    reg.register(label("a"), Position { x: 10, y: 20 });
    reg.register(label("b"), Position { x: -5, y: 0 });
    let moves = reg.reposition_all(PhysicalPosition { x: 150, y: 130 });
    assert_eq!(moves.len(), 2);
    assert_eq!(position_of(&moves, "a"), AbsolutePosition { x: 160, y: 150 });
    assert_eq!(position_of(&moves, "b"), AbsolutePosition { x: 145, y: 130 });
}

#[test]
fn create_badge_scenario() {
    let mut reg = OverlayRegistry::new();
    let size = Size { width: 50, height: 50 };
    let plan = reg.plan_create(
        &label("badge"),
        Position { x: 0, y: 0 },
        size,
        PhysicalPosition { x: 200, y: 200 },
    );
    assert_eq!(
        plan,
        Ok(WindowPlacement { position: AbsolutePosition { x: 200, y: 200 }, size })
    );
    reg.register(label("badge"), Position { x: 0, y: 0 });
    assert!(reg.is_registered(&label("badge")));

    let red = Color { r: 255, g: 0, b: 0 };
    let state = SurfaceState::Uninitialized;
    assert_eq!(state.next_render_step(size, red), RenderStep::Initialize(size));
    let settings = SurfaceSettings::initialize_renderer(
        size,
        &vec![wgpu::TextureFormat::Bgra8UnormSrgb, wgpu::TextureFormat::Rgba8Unorm],
        &vec![wgpu::CompositeAlphaMode::Opaque],
    );
    let state = SurfaceState::initialized(settings);
    assert_eq!(state.next_render_step(size, red), RenderStep::Draw(red));
    assert!(!linear_segment(255));
    assert!(linear_segment(0));
}

#[test]
fn create_on_live_label_is_refused() {
    let mut reg = OverlayRegistry::new();
    reg.register(label("badge"), Position { x: 1, y: 2 });
    let plan = reg.plan_create(
        &label("badge"),
        Position { x: 0, y: 0 },
        Size { width: 5, height: 5 },
        PhysicalPosition { x: 0, y: 0 },
    );
    assert_eq!(plan, Err(OverlayError::LabelInUse));
    assert_eq!(reg.offset_of(&label("badge")), Some(Position { x: 1, y: 2 }));
}

#[test]
fn update_unknown_label_is_noop() {
    let mut reg = OverlayRegistry::new();
    reg.register(label("a"), Position { x: 3, y: 4 });
    let plan = reg.plan_update(
        &label("ghost"),
        Position { x: 1, y: 1 },
        Size { width: 10, height: 10 },
        PhysicalPosition { x: 0, y: 0 },
    );
    assert_eq!(plan, None);
    assert!(!reg.is_registered(&label("ghost")));
    assert_eq!(reg.offset_of(&label("a")), Some(Position { x: 3, y: 4 }));
    assert_eq!(reg.reposition_all(PhysicalPosition { x: 0, y: 0 }).len(), 1);
}

#[test]
fn update_uses_new_offset() {
    let mut reg = OverlayRegistry::new();
    reg.register(label("a"), Position { x: 3, y: 4 });
    let size = Size { width: 20, height: 30 };
    let plan = reg.plan_update(&label("a"), Position { x: -7, y: 9 }, size, PhysicalPosition { x: 100, y: 100 });
    assert_eq!(
        plan,
        Some(WindowPlacement { position: AbsolutePosition { x: 93, y: 109 }, size })
    );
}

#[test]
fn update_twice_equals_once() {
    let mut reg = OverlayRegistry::new();
    reg.register(label("a"), Position { x: 3, y: 4 });
    let size = Size { width: 20, height: 30 };
    let main = PhysicalPosition { x: 7, y: 8 };
    let offset = Position { x: 11, y: -12 };
    let first = reg.plan_update(&label("a"), offset, size, main);
    reg.register(label("a"), offset);
    let after_once = reg.offset_of(&label("a"));
    let second = reg.plan_update(&label("a"), offset, size, main);
    reg.register(label("a"), offset);
    assert_eq!(first, second);
    assert_eq!(reg.offset_of(&label("a")), after_once);
    assert_eq!(reg.reposition_all(main).len(), 1);
}

#[test]
fn registry_stays_consistent() {
    let mut reg = OverlayRegistry::new();
    let main = PhysicalPosition { x: 40, y: 50 };
    let size = Size { width: 1, height: 1 };
    let a = reg.plan_create(&label("a"), Position { x: 1, y: 2 }, size, main).unwrap();
    reg.register(label("a"), Position { x: 1, y: 2 });
    let b = reg.plan_create(&label("b"), Position { x: -3, y: 0 }, size, main).unwrap();
    reg.register(label("b"), Position { x: -3, y: 0 });
    let moves = reg.reposition_all(main);
    assert_eq!(position_of(&moves, "a"), a.position);
    assert_eq!(position_of(&moves, "b"), b.position);
}

#[test]
fn register_replaces_offset() {
    let mut reg = OverlayRegistry::new();
    reg.register(label("a"), Position { x: 1, y: 1 });
    reg.register(label("a"), Position { x: 2, y: 2 });
    assert_eq!(reg.offset_of(&label("a")), Some(Position { x: 2, y: 2 }));
    assert_eq!(reg.offset_of(&label("b")), None);
    assert_eq!(reg.reposition_all(PhysicalPosition { x: 0, y: 0 }).len(), 1);
}

#[test]
fn linear_segment_threshold() {
    assert!(linear_segment(10));
    assert!(!linear_segment(11));
}

#[test]
fn surface_without_formats_is_unavailable() {
    let size = Size { width: 8, height: 8 };
    let none = SurfaceSettings::initialize_renderer(size, &vec![], &vec![wgpu::CompositeAlphaMode::Opaque]);
    assert!(matches!(none, Err(OverlayError::AdapterUnavailable)));
    let state = SurfaceState::initialized(none);
    assert_eq!(state.next_render_step(size, Color { r: 1, g: 2, b: 3 }), RenderStep::Refuse);
}

#[test]
fn resize_asks_for_reconfigure() {
    let size = Size { width: 8, height: 8 };
    let bigger = Size { width: 16, height: 12 };
    let color = Color { r: 1, g: 2, b: 3 };
    let settings = SurfaceSettings::initialize_renderer(
        size,
        &vec![wgpu::TextureFormat::Rgba8Unorm],
        &vec![wgpu::CompositeAlphaMode::Opaque],
    )
    .unwrap();
    assert_eq!(settings.max_frame_latency, FRAME_LATENCY);
    assert_eq!(settings.format, wgpu::TextureFormat::Rgba8Unorm);
    let mut state = SurfaceState::initialized(Ok(settings));
    assert_eq!(state.next_render_step(bigger, color), RenderStep::Reconfigure(bigger));
    state.reconfigured(bigger);
    assert_eq!(state.next_render_step(bigger, color), RenderStep::Draw(color));
}

#[test]
fn failed_acquisition_is_retried_once() {
    let size = Size { width: 3, height: 4 };
    assert_eq!(overlay_sync::acquire_failed_step(false, size), Ok(RenderStep::Reconfigure(size)));
    assert_eq!(
        overlay_sync::acquire_failed_step(true, size),
        Err(OverlayError::SurfaceAcquisitionFailed)
    );
}

#[test]
fn unregister_forgets_overlay() {
    let mut reg = OverlayRegistry::new();
    reg.register(label("a"), Position { x: 1, y: 1 });
    reg.register(label("b"), Position { x: 2, y: 2 });
    assert!(reg.unregister(&label("a")));
    assert!(!reg.unregister(&label("a")));
    assert!(!reg.is_registered(&label("a")));
    assert_eq!(reg.offset_of(&label("b")), Some(Position { x: 2, y: 2 }));
    let moves = reg.reposition_all(PhysicalPosition { x: 10, y: 10 });
    assert_eq!(moves.len(), 1);
    assert_eq!(position_of(&moves, "b"), AbsolutePosition { x: 12, y: 12 });
}
