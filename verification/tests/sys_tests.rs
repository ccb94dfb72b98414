use k1::sys::{
    c_text_buffer, input_event_kind, write_c_text, AChoreographer, AInputQueue, ALooper, ANativeWindow,
    InputEventKind, KeyAction, LogLevel, MotionAction, NativeWindow, AINPUT_EVENT_TYPE_KEY,
    AINPUT_EVENT_TYPE_MOTION, ALOOPER_EVENT_ERROR, ALOOPER_EVENT_HANGUP, ALOOPER_EVENT_INPUT,
    ALOOPER_EVENT_INVALID, ALOOPER_EVENT_OUTPUT, AMOTION_EVENT_ACTION_CANCEL, AMOTION_EVENT_ACTION_DOWN,
    AMOTION_EVENT_ACTION_MOVE, AMOTION_EVENT_ACTION_POINTER_DOWN, AMOTION_EVENT_ACTION_POINTER_UP,
    AMOTION_EVENT_ACTION_UP, ANDROID_LOG_DEBUG, ANDROID_LOG_ERROR, ANDROID_LOG_INFO, ANDROID_LOG_VERBOSE,
    ANDROID_LOG_WARN, LOG_MSG_CAPACITY, LOG_TAG_CAPACITY,
};

#[test]
fn test_native_window_size() {
    let w = NativeWindow::from_size(1080, 1920);
    assert_eq!(w.width(), 1080);
    assert_eq!(w.height(), 1920);
}

#[test]
fn test_native_window_set_geometry() {
    let mut w = NativeWindow::from_size(1080, 1920);
    assert!(w.set_buffer_geometry(720, 1280, 0).is_ok());
    assert_eq!(w.width(), 720);
    assert_eq!(w.height(), 1280);
}

#[test]
fn native_window_set_geometry_refused_keeps_size() {
    let mut w = NativeWindow::from_size(1080, 1920);
    assert!(w.set_buffer_geometry(720, 1280, -1).is_err());
    assert_eq!(w.width(), 1080);
    assert_eq!(w.height(), 1920);
}

#[test]
fn test_motion_action_down() {
    assert_eq!(MotionAction::from(AMOTION_EVENT_ACTION_DOWN), MotionAction::Down);
}

#[test]
fn test_motion_action_up() {
    assert_eq!(MotionAction::from(AMOTION_EVENT_ACTION_UP), MotionAction::Up);
}

#[test]
fn test_motion_action_move() {
    assert_eq!(MotionAction::from(AMOTION_EVENT_ACTION_MOVE), MotionAction::Move);
}

#[test]
fn test_motion_action_cancel() {
    assert_eq!(MotionAction::from(AMOTION_EVENT_ACTION_CANCEL), MotionAction::Cancel);
}

#[test]
fn test_motion_action_pointer_down() {
    assert_eq!(MotionAction::from(AMOTION_EVENT_ACTION_POINTER_DOWN), MotionAction::PointerDown);
}

#[test]
fn test_motion_action_pointer_up() {
    assert_eq!(MotionAction::from(AMOTION_EVENT_ACTION_POINTER_UP), MotionAction::PointerUp);
}

#[test]
fn test_motion_action_unknown() {
    assert_eq!(MotionAction::from(999), MotionAction::Unknown);
}

#[test]
fn test_motion_action_mask() {
    let action_with_pointer = (1 << 8) | AMOTION_EVENT_ACTION_POINTER_DOWN;
    assert_eq!(MotionAction::from(action_with_pointer), MotionAction::PointerDown);
}

#[test]
fn motion_action_code_four_is_unknown() {
    assert_eq!(MotionAction::from(4), MotionAction::Unknown);
    assert_eq!(MotionAction::from(-1), MotionAction::Unknown);
    assert_eq!(MotionAction::from(0x0201), MotionAction::Up);
}

#[test]
fn test_key_action_down() {
    assert_eq!(KeyAction::from(0), KeyAction::Down);
}

#[test]
fn test_key_action_up() {
    assert_eq!(KeyAction::from(1), KeyAction::Up);
}

#[test]
fn test_key_action_unknown() {
    assert_eq!(KeyAction::from(2), KeyAction::Unknown);
}

#[test]
fn key_action_is_not_masked() {
    assert_eq!(KeyAction::from(0x100), KeyAction::Unknown);
    assert_eq!(KeyAction::from(-1), KeyAction::Unknown);
}

#[test]
fn test_log_level_verbose() {
    assert_eq!(LogLevel::Verbose.to_android_prio(), ANDROID_LOG_VERBOSE);
}

#[test]
fn test_log_level_debug() {
    assert_eq!(LogLevel::Debug.to_android_prio(), ANDROID_LOG_DEBUG);
}

#[test]
fn test_log_level_info() {
    assert_eq!(LogLevel::Info.to_android_prio(), ANDROID_LOG_INFO);
}

#[test]
fn test_log_level_warn() {
    assert_eq!(LogLevel::Warn.to_android_prio(), ANDROID_LOG_WARN);
}

#[test]
fn test_log_level_error() {
    assert_eq!(LogLevel::Error.to_android_prio(), ANDROID_LOG_ERROR);
}

#[test]
fn log_priorities_are_the_platform_numbers() {
    assert_eq!(LogLevel::Verbose.to_android_prio(), 2);
    assert_eq!(LogLevel::Error.to_android_prio(), 6);
}

#[test]
fn test_looper_events() {
    assert_eq!(ALOOPER_EVENT_INPUT, 1);
    assert_eq!(ALOOPER_EVENT_OUTPUT, 2);
    assert_eq!(ALOOPER_EVENT_ERROR, 4);
}

#[test]
fn looper_event_bits_are_distinct_powers_of_two() {
    assert_eq!(ALOOPER_EVENT_HANGUP, 1 << 3);
    assert_eq!(ALOOPER_EVENT_INVALID, 1 << 4);
}

#[test]
fn test_motion_actions() {
    assert_eq!(AMOTION_EVENT_ACTION_DOWN, 0);
    assert_eq!(AMOTION_EVENT_ACTION_UP, 1);
    assert_eq!(AMOTION_EVENT_ACTION_MOVE, 2);
}

#[test]
fn test_opaque_types_size() {
    assert_eq!(core::mem::size_of::<ANativeWindow>(), 0);
    assert_eq!(core::mem::size_of::<AInputQueue>(), 0);
    assert_eq!(core::mem::size_of::<ALooper>(), 0);
    assert_eq!(core::mem::size_of::<AChoreographer>(), 0);
}

#[test]
fn input_event_kinds() {
    assert_eq!(input_event_kind(AINPUT_EVENT_TYPE_MOTION), InputEventKind::Motion);
    assert_eq!(input_event_kind(AINPUT_EVENT_TYPE_KEY), InputEventKind::Key);
    assert_eq!(input_event_kind(3), InputEventKind::Unknown);
}

#[test]
fn c_text_buffer_holds_short_text_and_nul() {
    let b = c_text_buffer("ZAVOGLES", LOG_TAG_CAPACITY);
    assert_eq!(b.len(), 32);
    assert_eq!(&b[..8], b"ZAVOGLES");
    assert!(b[8..].iter().all(|&x| x == 0));
}

#[test]
fn c_text_buffer_truncates_long_text() {
    let long = "x".repeat(300);
    let b = c_text_buffer(&long, LOG_MSG_CAPACITY);
    assert_eq!(b.len(), 256);
    assert!(b[..255].iter().all(|&x| x == b'x'));
    assert_eq!(b[255], 0);
}

#[test]
fn write_c_text_keeps_bytes_after_nul() {
    let mut buf = [b'z'; 8];
    write_c_text(&mut buf, "abc");
    assert_eq!(&buf, b"abc\0zzzz");
}
