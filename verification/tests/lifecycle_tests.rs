use k1::error::K1Error;
use k1::lifecycle::{touch_is_logged, AppState, FrameAction};

#[test]
fn test_running() {
    let mut state = AppState::new();
    state.set_running(true);
    assert!(state.is_running());
}

#[test]
fn frames_draw_only_while_running_with_renderer() {
    let mut s = AppState::new();
    assert_eq!(s.frame(), FrameAction::Skip);
    s.surface_ready(1080, 1920);
    assert_eq!(s.frame(), FrameAction::Draw { frame: 0, width: 1080, height: 1920 });
    s.surface_changed(720, 1280);
    assert_eq!(s.frame(), FrameAction::Draw { frame: 1, width: 720, height: 1280 });
    s.paused();
    assert_eq!(s.frame(), FrameAction::Skip);
    assert_eq!(s.frame_count(), 2);
}

#[test]
fn destroyed_surface_releases_once() {
    let mut s = AppState::new();
    s.surface_ready(10, 20);
    assert!(s.surface_destroyed());
    assert!(!s.surface_destroyed());
    assert!(!s.has_renderer());
    s.set_running(true);
    assert_eq!(s.frame(), FrameAction::Skip);
    s.destroyed();
    assert!(!s.is_running());
}

#[test]
fn touches_logged_on_press_and_release() {
    assert!(touch_is_logged(0));
    assert!(touch_is_logged(1));
    assert!(!touch_is_logged(2));
}

#[test]
fn error_messages() {
    assert_eq!(K1Error::OutOfMemory.message(), "Out of memory");
    assert_eq!(K1Error::ShaderCompileError.message(), "Shader compile error");
    assert_eq!(K1Error::AlreadyInitialized.message(), "Already initialized");
}
