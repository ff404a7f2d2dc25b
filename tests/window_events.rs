use orbit_camera::controller::CameraController;
use orbit_camera::input::Key;
use orbit_camera::session::{AfterRender, Reaction, RenderOutcome, Viewport, WindowInput};

#[test]
fn new_viewport_is_unconfigured() {
    let v = Viewport::new(2000, 2000);
    assert_eq!(v, Viewport { width: 2000, height: 2000, surface_configured: false });
}

#[test]
fn resize_rejects_zero_sides() {
    let mut v = Viewport::new(800, 600);
    assert!(!v.resize(0, 600));
    assert!(!v.resize(800, 0));
    assert!(!v.resize(0, 0));
    assert_eq!((v.width, v.height), (800, 600));
    assert!(v.resize(1024, 768));
    assert_eq!((v.width, v.height), (1024, 768));
}

#[test]
fn redraw_waits_for_a_reported_size() {
    let mut v = Viewport::new(800, 600);
    let mut c = CameraController::new(0.05f32);
    assert_eq!(v.handle(WindowInput::RedrawRequested, &mut c), Reaction::Redraw { draw: false });
    assert_eq!(v.handle(WindowInput::Resized { width: 640, height: 480 }, &mut c), Reaction::Reconfigure);
    assert!(v.surface_configured);
    assert_eq!((v.width, v.height), (640, 480));
    assert_eq!(v.handle(WindowInput::RedrawRequested, &mut c), Reaction::Redraw { draw: true });
}

#[test]
fn zero_resize_still_marks_configured() {
    let mut v = Viewport::new(800, 600);
    let mut c = CameraController::new(0.05f32);
    assert_eq!(v.handle(WindowInput::Resized { width: 0, height: 480 }, &mut c), Reaction::Ignore);
    assert!(v.surface_configured);
    assert_eq!((v.width, v.height), (800, 600));
    assert_eq!(v.handle(WindowInput::RedrawRequested, &mut c), Reaction::Redraw { draw: true });
}

#[test]
fn keys_reach_the_controller() {
    let mut v = Viewport::new(800, 600);
    let mut c = CameraController::new(0.05f32);
    assert_eq!(v.handle(WindowInput::Keyboard { key: Key::KeyW, pressed: true }, &mut c), Reaction::Ignore);
    assert!(c.is_forward_pressed);
    assert_eq!(v.handle(WindowInput::Keyboard { key: Key::KeyW, pressed: false }, &mut c), Reaction::Ignore);
    assert!(!c.is_forward_pressed);
}

#[test]
fn cursor_and_space_are_consumed() {
    let mut v = Viewport::new(800, 600);
    let mut c = CameraController::new(0.05f32);
    assert_eq!(v.handle(WindowInput::CursorMoved, &mut c), Reaction::TrackCursor);
    assert_eq!(v.handle(WindowInput::Keyboard { key: Key::Space, pressed: true }, &mut c), Reaction::Consumed);
    assert_eq!(v.handle(WindowInput::Keyboard { key: Key::Space, pressed: false }, &mut c), Reaction::Ignore);
}

#[test]
fn close_and_escape_exit() {
    let mut v = Viewport::new(800, 600);
    let mut c = CameraController::new(0.05f32);
    assert_eq!(v.handle(WindowInput::CloseRequested, &mut c), Reaction::Exit);
    assert_eq!(v.handle(WindowInput::Keyboard { key: Key::Escape, pressed: true }, &mut c), Reaction::Exit);
    assert_eq!(v.handle(WindowInput::Keyboard { key: Key::Escape, pressed: false }, &mut c), Reaction::Ignore);
    assert_eq!(v.handle(WindowInput::Other, &mut c), Reaction::Ignore);
}

#[test]
fn render_outcomes() {
    let v = Viewport::new(800, 600);
    assert_eq!(v.after_render(RenderOutcome::Presented), AfterRender::Continue);
    assert_eq!(v.after_render(RenderOutcome::Lost), AfterRender::Reconfigure);
    assert_eq!(v.after_render(RenderOutcome::Outdated), AfterRender::Reconfigure);
    assert_eq!(v.after_render(RenderOutcome::OutOfMemory), AfterRender::Exit);
    assert_eq!(v.after_render(RenderOutcome::Timeout), AfterRender::Warn);
    let empty = Viewport::new(0, 600);
    assert_eq!(empty.after_render(RenderOutcome::Lost), AfterRender::Continue);
}

#[test]
fn configured_and_drawable_stay() {
    let mut v = Viewport::new(800, 600);
    let mut c = CameraController::new(0.05f32);
    v.handle(WindowInput::Resized { width: 300, height: 200 }, &mut c);
    let events = [
        WindowInput::Resized { width: 0, height: 0 },
        WindowInput::CursorMoved,
        WindowInput::Keyboard { key: Key::KeyQ, pressed: true },
        WindowInput::Resized { width: 5, height: 0 },
        WindowInput::Other,
    ];
    for e in events {
        v.handle(e, &mut c);
        assert!(v.surface_configured);
        assert!(v.width > 0 && v.height > 0);
        assert_eq!(v.handle(WindowInput::RedrawRequested, &mut c), Reaction::Redraw { draw: true });
    }
    assert_eq!((v.width, v.height), (300, 200));
}
