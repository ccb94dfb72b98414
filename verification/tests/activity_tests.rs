use k1::activity::{ActivityAction, ActivityEvent, MainLoop};

#[test]
fn main_loop_starts_running_without_renderer() {
    let m = MainLoop::new();
    assert!(m.is_running());
    assert!(!m.should_render());
}

#[test]
fn init_window_asks_for_a_renderer() {
    let mut m = MainLoop::new();
    assert_eq!(m.on_event(ActivityEvent::InitWindow), ActivityAction::CreateRenderer);
    assert!(!m.should_render());
    m.renderer_created(true);
    assert!(m.should_render());
    assert!(m.is_running());
}

#[test]
fn failed_renderer_keeps_earlier_state() {
    let mut m = MainLoop::new();
    m.on_event(ActivityEvent::InitWindow);
    m.renderer_created(false);
    assert!(!m.should_render());
    m.on_event(ActivityEvent::InitWindow);
    m.renderer_created(true);
    m.on_event(ActivityEvent::InitWindow);
    m.renderer_created(false);
    assert!(m.should_render());
}

#[test]
fn terminate_window_drops_renderer() {
    let mut m = MainLoop::new();
    m.renderer_created(true);
    assert_eq!(m.on_event(ActivityEvent::TerminateWindow), ActivityAction::DropRenderer);
    assert!(!m.should_render());
    assert!(m.is_running());
    m.on_event(ActivityEvent::Resume);
    m.on_event(ActivityEvent::InputAvailable);
    assert!(!m.should_render());
}

#[test]
fn destroy_stops_the_loop_for_good() {
    let mut m = MainLoop::new();
    m.renderer_created(true);
    assert_eq!(m.on_event(ActivityEvent::Destroy), ActivityAction::Stop);
    assert!(!m.is_running());
    assert!(m.should_render());
    m.on_event(ActivityEvent::Resume);
    m.on_event(ActivityEvent::InitWindow);
    assert!(!m.is_running());
}

#[test]
fn other_events_change_nothing() {
    let mut m = MainLoop::new();
    assert_eq!(m.on_event(ActivityEvent::InputAvailable), ActivityAction::HandleInput);
    assert_eq!(m.on_event(ActivityEvent::Pause), ActivityAction::NotePaused);
    assert_eq!(m.on_event(ActivityEvent::Resume), ActivityAction::NoteResumed);
    assert_eq!(m.on_event(ActivityEvent::Other), ActivityAction::Nothing);
    assert!(m.is_running());
    assert!(!m.should_render());
}
