//! Android platform vocabulary: opaque native handle types, event and log
//! constants, the decoding of input actions, log priorities, window
//! geometry bookkeeping and the NUL-terminated text buffers handed to the
//! platform.

use vstd::prelude::*;
use vstd::std_specs::convert::FromSpecImpl;
use vstd::string::StringSliceAdditionalSpecFns;

verus! {

/// Opaque native window (`ANativeWindow`), only ever used behind a pointer.
pub struct ANativeWindow {
    _private: [u8; 0],
}

/// Opaque native input queue (`AInputQueue`), only ever used behind a pointer.
pub struct AInputQueue {
    _private: [u8; 0],
}

/// Opaque native looper (`ALooper`), only ever used behind a pointer.
pub struct ALooper {
    _private: [u8; 0],
}

/// Opaque frame choreographer (`AChoreographer`), only ever used behind a
/// pointer.
pub struct AChoreographer {
    _private: [u8; 0],
}

/// Looper event bit: input available.
pub const ALOOPER_EVENT_INPUT: i32 = 1;
/// Looper event bit: output possible.
pub const ALOOPER_EVENT_OUTPUT: i32 = 2;
/// Looper event bit: error.
pub const ALOOPER_EVENT_ERROR: i32 = 4;
/// Looper event bit: hang-up.
pub const ALOOPER_EVENT_HANGUP: i32 = 8;
/// Looper event bit: invalid descriptor.
pub const ALOOPER_EVENT_INVALID: i32 = 16;

/// Input event type: key event.
pub const AINPUT_EVENT_TYPE_KEY: i32 = 1;
/// Input event type: motion (touch) event.
pub const AINPUT_EVENT_TYPE_MOTION: i32 = 2;

/// Motion action code: first pointer down.
pub const AMOTION_EVENT_ACTION_DOWN: i32 = 0;
/// Motion action code: last pointer up.
pub const AMOTION_EVENT_ACTION_UP: i32 = 1;
/// Motion action code: pointer moved.
pub const AMOTION_EVENT_ACTION_MOVE: i32 = 2;
/// Motion action code: gesture cancelled.
pub const AMOTION_EVENT_ACTION_CANCEL: i32 = 3;
/// Motion action code: another pointer down.
pub const AMOTION_EVENT_ACTION_POINTER_DOWN: i32 = 5;
/// Motion action code: a non-last pointer up.
pub const AMOTION_EVENT_ACTION_POINTER_UP: i32 = 6;

/// Android log priority: verbose.
pub const ANDROID_LOG_VERBOSE: i32 = 2;
/// Android log priority: debug.
pub const ANDROID_LOG_DEBUG: i32 = 3;
/// Android log priority: info.
pub const ANDROID_LOG_INFO: i32 = 4;
/// Android log priority: warning.
pub const ANDROID_LOG_WARN: i32 = 5;
/// Android log priority: error.
pub const ANDROID_LOG_ERROR: i32 = 6;

/// Bytes of the tag buffer handed to the platform log, NUL included.
pub const LOG_TAG_CAPACITY: usize = 32;
/// Bytes of the message buffer handed to the platform log, NUL included.
pub const LOG_MSG_CAPACITY: usize = 256;

/// Motion (touch) action, decoded from the low byte of an action code.
#[derive(Debug, Clone, Copy, PartialEq, Eq, Structural)]
pub enum MotionAction {
    Down,
    Up,
    Move,
    Cancel,
    PointerDown,
    PointerUp,
    Unknown,
}

/// The motion action that an action code stands for: its low byte (the
/// pointer index sits above it) selects the action; codes without a named
/// action are `Unknown`.
pub open spec fn motion_action_of(action: i32) -> MotionAction {
    let code = action & 0xFF;
    if code == AMOTION_EVENT_ACTION_DOWN {
        MotionAction::Down
    } else if code == AMOTION_EVENT_ACTION_UP {
        MotionAction::Up
    } else if code == AMOTION_EVENT_ACTION_MOVE {
        MotionAction::Move
    } else if code == AMOTION_EVENT_ACTION_CANCEL {
        MotionAction::Cancel
    } else if code == AMOTION_EVENT_ACTION_POINTER_DOWN {
        MotionAction::PointerDown
    } else if code == AMOTION_EVENT_ACTION_POINTER_UP {
        MotionAction::PointerUp
    } else {
        MotionAction::Unknown
    }
}

/// Only the low byte of an action code decides the motion action: the
/// pointer index packed above it never changes it.
pub proof fn law_motion_action_ignores_pointer_index(action: i32)
    ensures
        motion_action_of(action) == motion_action_of(action & 0xFF),
{
    assert((action & 0xFF) & 0xFF == action & 0xFF) by (bit_vector);
}

/// Each named motion action comes from its own code in the low byte of the
/// action code, and only from it: down 0, up 1, move 2, cancel 3, pointer
/// down 5, pointer up 6. Any other low byte (such as scroll or hover codes)
/// is `Unknown`.
pub proof fn law_motion_action_codes(action: i32)
    ensures
        motion_action_of(action) == MotionAction::Down <==> action & 0xFF == 0,
        motion_action_of(action) == MotionAction::Up <==> action & 0xFF == 1,
        motion_action_of(action) == MotionAction::Move <==> action & 0xFF == 2,
        motion_action_of(action) == MotionAction::Cancel <==> action & 0xFF == 3,
        motion_action_of(action) == MotionAction::PointerDown <==> action & 0xFF == 5,
        motion_action_of(action) == MotionAction::PointerUp <==> action & 0xFF == 6,
        motion_action_of(action) == MotionAction::Unknown <==> !(action & 0xFF == 0 || action & 0xFF
            == 1 || action & 0xFF == 2 || action & 0xFF == 3 || action & 0xFF == 5 || action & 0xFF
            == 6),
{
}

impl From<i32> for MotionAction {
    fn from(action: i32) -> (r: Self) {
        let code = action & 0xFF;
        if code == AMOTION_EVENT_ACTION_DOWN {
            MotionAction::Down
        } else if code == AMOTION_EVENT_ACTION_UP {
            MotionAction::Up
        } else if code == AMOTION_EVENT_ACTION_MOVE {
            MotionAction::Move
        } else if code == AMOTION_EVENT_ACTION_CANCEL {
            MotionAction::Cancel
        } else if code == AMOTION_EVENT_ACTION_POINTER_DOWN {
            MotionAction::PointerDown
        } else if code == AMOTION_EVENT_ACTION_POINTER_UP {
            MotionAction::PointerUp
        } else {
            MotionAction::Unknown
        }
    }
}

impl FromSpecImpl<i32> for MotionAction {
    open spec fn obeys_from_spec() -> bool {
        true
    }

    open spec fn from_spec(v: i32) -> MotionAction {
        motion_action_of(v)
    }
}

/// Key action.
#[derive(Debug, Clone, Copy, PartialEq, Eq, Structural)]
pub enum KeyAction {
    Down,
    Up,
    Unknown,
}

/// The key action that an action code stands for: 0 is down, 1 is up, any
/// other code is `Unknown`.
pub open spec fn key_action_of(action: i32) -> KeyAction {
    if action == 0 {
        KeyAction::Down
    } else if action == 1 {
        KeyAction::Up
    } else {
        KeyAction::Unknown
    }
}

/// Key codes: 0 is a press, 1 a release, and no other code is either.
pub proof fn law_key_action_codes(action: i32)
    ensures
        key_action_of(action) == KeyAction::Down <==> action == 0,
        key_action_of(action) == KeyAction::Up <==> action == 1,
        key_action_of(action) == KeyAction::Unknown <==> !(action == 0 || action == 1),
{
}

impl From<i32> for KeyAction {
    fn from(action: i32) -> (r: Self) {
        match action {
            0 => KeyAction::Down,
            1 => KeyAction::Up,
            _ => KeyAction::Unknown,
        }
    }
}

impl FromSpecImpl<i32> for KeyAction {
    open spec fn obeys_from_spec() -> bool {
        true
    }

    open spec fn from_spec(v: i32) -> KeyAction {
        key_action_of(v)
    }
}

/// Log severity.
#[derive(Debug, Clone, Copy, PartialEq, Eq, Structural)]
pub enum LogLevel {
    Verbose,
    Debug,
    Info,
    Warn,
    Error,
}

/// The Android log priority of a severity.
pub open spec fn android_prio_of(level: LogLevel) -> i32 {
    match level {
        LogLevel::Verbose => ANDROID_LOG_VERBOSE,
        LogLevel::Debug => ANDROID_LOG_DEBUG,
        LogLevel::Info => ANDROID_LOG_INFO,
        LogLevel::Warn => ANDROID_LOG_WARN,
        LogLevel::Error => ANDROID_LOG_ERROR,
    }
}

/// Android's log priorities, by severity: verbose 2, debug 3, info 4,
/// warn 5, error 6; more severe is higher, and no two severities share one.
pub proof fn law_android_prio_values(a: LogLevel, b: LogLevel)
    ensures
        android_prio_of(LogLevel::Verbose) == 2,
        android_prio_of(LogLevel::Debug) == 3,
        android_prio_of(LogLevel::Info) == 4,
        android_prio_of(LogLevel::Warn) == 5,
        android_prio_of(LogLevel::Error) == 6,
        android_prio_of(a) == android_prio_of(b) ==> a == b,
{
}

impl LogLevel {
    /// The Android log priority of this severity.
    pub fn to_android_prio(self) -> (p: i32)
        ensures
            p == android_prio_of(self),
    {
        match self {
            LogLevel::Verbose => ANDROID_LOG_VERBOSE,
            LogLevel::Debug => ANDROID_LOG_DEBUG,
            LogLevel::Info => ANDROID_LOG_INFO,
            LogLevel::Warn => ANDROID_LOG_WARN,
            LogLevel::Error => ANDROID_LOG_ERROR,
        }
    }
}

/// Kind of a native input event, by its event type code.
#[derive(Debug, Clone, Copy, PartialEq, Eq, Structural)]
pub enum InputEventKind {
    Motion,
    Key,
    Unknown,
}

/// The kind of event that a native event type code stands for.
pub open spec fn input_event_kind_of(event_type: i32) -> InputEventKind {
    if event_type == AINPUT_EVENT_TYPE_MOTION {
        InputEventKind::Motion
    } else if event_type == AINPUT_EVENT_TYPE_KEY {
        InputEventKind::Key
    } else {
        InputEventKind::Unknown
    }
}

/// Event type 1 announces a key event and 2 a motion event; every other
/// type is unknown.
pub proof fn law_input_event_kind_codes(event_type: i32)
    ensures
        input_event_kind_of(event_type) == InputEventKind::Key <==> event_type == 1,
        input_event_kind_of(event_type) == InputEventKind::Motion <==> event_type == 2,
        input_event_kind_of(event_type) == InputEventKind::Unknown <==> !(event_type == 1
            || event_type == 2),
{
}

/// Decides which kind of event a native event type code announces, and so
/// which fields of the event are to be read.
pub fn input_event_kind(event_type: i32) -> (k: InputEventKind)
    ensures
        k == input_event_kind_of(event_type),
{
    if event_type == AINPUT_EVENT_TYPE_MOTION {
        InputEventKind::Motion
    } else if event_type == AINPUT_EVENT_TYPE_KEY {
        InputEventKind::Key
    } else {
        InputEventKind::Unknown
    }
}

/// Size bookkeeping of a native window: the width and height last read from
/// or set on it.
pub struct NativeWindow {
    width: i32,
    height: i32,
}

impl NativeWindow {
    /// Window width, in pixels.
    pub closed spec fn spec_width(&self) -> i32 {
        self.width
    }

    /// Window height, in pixels.
    pub closed spec fn spec_height(&self) -> i32 {
        self.height
    }

    /// The bookkeeping of a window whose size was read as `width` x `height`.
    pub fn from_size(width: i32, height: i32) -> (w: Self)
        ensures
            w.spec_width() == width,
            w.spec_height() == height,
    {
        NativeWindow { width, height }
    }

    /// Window width, in pixels.
    pub fn width(&self) -> (w: i32)
        ensures
            w == self.spec_width(),
    {
        self.width
    }

    /// Window height, in pixels.
    pub fn height(&self) -> (h: i32)
        ensures
            h == self.spec_height(),
    {
        self.height
    }

    /// Records the outcome of asking the platform to set the buffer geometry
    /// to `w` x `h`: status 0 means it was set, and the new size is kept;
    /// any other status is an error and the size stays as it was.
    pub fn set_buffer_geometry(&mut self, w: i32, h: i32, status: i32) -> (r: Result<(), ()>)
        ensures
            r is Ok <==> status == 0,
            status == 0 ==> final(self).spec_width() == w && final(self).spec_height() == h,
            status != 0 ==> final(self).spec_width() == old(self).spec_width()
                && final(self).spec_height() == old(self).spec_height(),
    {
        if status == 0 {
            self.width = w;
            self.height = h;
            Ok(())
        } else {
            Err(())
        }
    }
}

/// How many bytes of a text of `len` bytes fit, with a terminating NUL, in a
/// buffer of `capacity` bytes.
pub open spec fn c_text_len(len: int, capacity: int) -> int {
    if len < capacity - 1 {
        len
    } else {
        capacity - 1
    }
}

/// `buf` with its first bytes replaced by as much of `text` as fits before
/// the last byte, followed by a NUL; the bytes after that NUL stay.
pub open spec fn put_c_text(buf: Seq<u8>, text: Seq<u8>) -> Seq<u8> {
    let n = c_text_len(text.len() as int, buf.len() as int);
    text.subrange(0, n) + seq![0u8] + buf.subrange(n + 1, buf.len() as int)
}

/// Writes as much of `text` as fits into `buf` before its last byte,
/// followed by a terminating NUL. Bytes after the NUL are left as they were.
pub fn write_c_text(buf: &mut [u8], text: &str)
    requires
        old(buf)@.len() >= 1,
    ensures
        final(buf)@ == put_c_text(old(buf)@, text.spec_bytes()),
{
    let bytes = text.as_bytes();
    let cap = buf.len() - 1;
    let len = if bytes.len() < cap {
        bytes.len()
    } else {
        cap
    };
    let mut i: usize = 0;
    while i < len
        invariant
            len <= cap,
            cap + 1 == old(buf)@.len(),
            len <= bytes@.len(),
            bytes@ == text.spec_bytes(),
            len == c_text_len(bytes@.len() as int, old(buf)@.len() as int),
            i <= len,
            buf@.len() == old(buf)@.len(),
            forall|j: int| 0 <= j < i ==> buf@[j] == bytes@[j],
            forall|j: int| i <= j < buf@.len() ==> buf@[j] == old(buf)@[j],
        decreases len - i,
    {
        buf[i] = bytes[i];
        i += 1;
    }
    buf[len] = 0u8;
    assert(buf@ =~= put_c_text(old(buf)@, text.spec_bytes()));
}

/// A zeroed buffer of `capacity` bytes holding as much of `text` as fits
/// before its last byte; what the platform log receives as tag or message.
pub fn c_text_buffer(text: &str, capacity: usize) -> (buf: Vec<u8>)
    requires
        capacity >= 1,
    ensures
        buf@ == put_c_text(Seq::new(capacity as nat, |i: int| 0u8), text.spec_bytes()),
{
    let mut buf: Vec<u8> = Vec::new();
    let mut i: usize = 0;
    while i < capacity
        invariant
            i <= capacity,
            buf@.len() == i,
            forall|j: int| 0 <= j < i ==> buf@[j] == 0u8,
        decreases capacity - i,
    {
        buf.push(0u8);
        i += 1;
    }
    assert(buf@ =~= Seq::new(capacity as nat, |i: int| 0u8));
    write_c_text(buf.as_mut_slice(), text);
    buf
}

} // verus!
