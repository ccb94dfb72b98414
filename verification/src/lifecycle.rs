//! The app's lifecycle as a state machine: what each platform callback does
//! to the shared state, and what the owner of the GL resources is to do in
//! response. Creating and dropping the resources, drawing and logging stay
//! with the owner.

use vstd::prelude::*;

verus! {

/// What a frame callback asks of the owner.
#[derive(Debug, Clone, Copy, PartialEq, Eq, Structural)]
pub enum FrameAction {
    /// Draw nothing this time.
    Skip,
    /// Draw frame number `frame` on a `width` x `height` surface.
    Draw { frame: u32, width: i32, height: i32 },
}

/// The state shared between the platform callbacks.
pub struct AppState {
    running: bool,
    width: i32,
    height: i32,
    frame_count: u32,
    has_renderer: bool,
}

impl AppState {
    /// Whether frames are to be drawn.
    pub closed spec fn spec_running(&self) -> bool {
        self.running
    }

    /// Surface width last reported.
    pub closed spec fn spec_width(&self) -> i32 {
        self.width
    }

    /// Surface height last reported.
    pub closed spec fn spec_height(&self) -> i32 {
        self.height
    }

    /// Frames drawn so far, modulo 2^32.
    pub closed spec fn spec_frame_count(&self) -> u32 {
        self.frame_count
    }

    /// Whether the GL context and the batch renderer exist.
    pub closed spec fn spec_has_renderer(&self) -> bool {
        self.has_renderer
    }

    /// What [`AppState::frame`] does: when running with a renderer it asks
    /// for frame number `frame_count` at the current size and counts it
    /// (wrapping at 2^32); otherwise it asks for nothing and changes nothing.
    pub open spec fn frame_step(before: Self, after: Self, a: FrameAction) -> bool {
        &&& after.spec_running() == before.spec_running()
        &&& after.spec_has_renderer() == before.spec_has_renderer()
        &&& after.spec_width() == before.spec_width()
        &&& after.spec_height() == before.spec_height()
        &&& !(before.spec_running() && before.spec_has_renderer()) ==> {
            &&& a == FrameAction::Skip
            &&& after.spec_frame_count() == before.spec_frame_count()
        }
        &&& before.spec_running() && before.spec_has_renderer() ==> {
            &&& a == (FrameAction::Draw {
                frame: before.spec_frame_count(),
                width: before.spec_width(),
                height: before.spec_height(),
            })
            &&& after.spec_frame_count() == vstd::wrapping::u32_specs::wrapping_add(
                before.spec_frame_count(),
                1,
            )
        }
    }

    /// The state before any callback: stopped, no surface, no renderer.
    pub fn new() -> (s: Self)
        ensures
            !s.spec_running(),
            s.spec_width() == 0,
            s.spec_height() == 0,
            s.spec_frame_count() == 0,
            !s.spec_has_renderer(),
    {
        AppState { running: false, width: 0, height: 0, frame_count: 0, has_renderer: false }
    }

    /// Whether frames are to be drawn.
    pub fn is_running(&self) -> (b: bool)
        ensures
            b == self.spec_running(),
    {
        self.running
    }

    /// Sets whether frames are to be drawn.
    pub fn set_running(&mut self, running: bool)
        ensures
            final(self).spec_running() == running,
            final(self).spec_width() == old(self).spec_width(),
            final(self).spec_height() == old(self).spec_height(),
            final(self).spec_frame_count() == old(self).spec_frame_count(),
            final(self).spec_has_renderer() == old(self).spec_has_renderer(),
    {
        self.running = running;
    }

    /// Surface width last reported.
    pub fn width(&self) -> (w: i32)
        ensures
            w == self.spec_width(),
    {
        self.width
    }

    /// Surface height last reported.
    pub fn height(&self) -> (h: i32)
        ensures
            h == self.spec_height(),
    {
        self.height
    }

    /// Frames drawn so far, modulo 2^32.
    pub fn frame_count(&self) -> (n: u32)
        ensures
            n == self.spec_frame_count(),
    {
        self.frame_count
    }

    /// Whether the GL context and the batch renderer exist.
    pub fn has_renderer(&self) -> (b: bool)
        ensures
            b == self.spec_has_renderer(),
    {
        self.has_renderer
    }

    /// The surface was created and the GL context and batch renderer were
    /// set up on a `width` x `height` window: start drawing.
    pub fn surface_ready(&mut self, width: i32, height: i32)
        ensures
            final(self).spec_running(),
            final(self).spec_has_renderer(),
            final(self).spec_width() == width,
            final(self).spec_height() == height,
            final(self).spec_frame_count() == old(self).spec_frame_count(),
    {
        self.has_renderer = true;
        self.running = true;
        self.width = width;
        self.height = height;
    }

    /// The surface changed size.
    pub fn surface_changed(&mut self, width: i32, height: i32)
        ensures
            final(self).spec_width() == width,
            final(self).spec_height() == height,
            final(self).spec_running() == old(self).spec_running(),
            final(self).spec_has_renderer() == old(self).spec_has_renderer(),
            final(self).spec_frame_count() == old(self).spec_frame_count(),
    {
        self.width = width;
        self.height = height;
    }

    /// The surface is going away: stop drawing and give up the renderer.
    /// Returns whether there was a renderer, whose resources the owner is
    /// then to release.
    pub fn surface_destroyed(&mut self) -> (release: bool)
        ensures
            release == old(self).spec_has_renderer(),
            !final(self).spec_running(),
            !final(self).spec_has_renderer(),
            final(self).spec_width() == old(self).spec_width(),
            final(self).spec_height() == old(self).spec_height(),
            final(self).spec_frame_count() == old(self).spec_frame_count(),
    {
        let release = self.has_renderer;
        self.running = false;
        self.has_renderer = false;
        release
    }

    /// The activity paused: stop drawing.
    pub fn paused(&mut self)
        ensures
            !final(self).spec_running(),
            final(self).spec_has_renderer() == old(self).spec_has_renderer(),
            final(self).spec_width() == old(self).spec_width(),
            final(self).spec_height() == old(self).spec_height(),
            final(self).spec_frame_count() == old(self).spec_frame_count(),
    {
        self.running = false;
    }

    /// The activity is being destroyed: stop drawing.
    pub fn destroyed(&mut self)
        ensures
            !final(self).spec_running(),
            final(self).spec_has_renderer() == old(self).spec_has_renderer(),
            final(self).spec_width() == old(self).spec_width(),
            final(self).spec_height() == old(self).spec_height(),
            final(self).spec_frame_count() == old(self).spec_frame_count(),
    {
        self.running = false;
    }

    /// A frame is due: draw the next frame when running with a renderer,
    /// counting it (the count wraps at 2^32); skip otherwise.
    pub fn frame(&mut self) -> (a: FrameAction)
        ensures
            Self::frame_step(*old(self), *final(self), a),
    {
        if !self.running || !self.has_renderer {
            return FrameAction::Skip;
        }
        let frame = self.frame_count;
        self.frame_count = frame.wrapping_add(1);
        FrameAction::Draw { frame, width: self.width, height: self.height }
    }
}

/// Once drawing has stopped (after a pause, a destroy or the loss of the
/// surface), frame callbacks draw nothing and change nothing until the
/// surface is ready again.
pub proof fn law_lifecycle_stopped_draws_nothing(s0: AppState, s1: AppState, a: FrameAction)
    requires
        !s0.spec_running() || !s0.spec_has_renderer(),
        AppState::frame_step(s0, s1, a),
    ensures
        a == FrameAction::Skip,
        !s1.spec_running() || !s1.spec_has_renderer(),
        s1.spec_frame_count() == s0.spec_frame_count(),
{
}

/// While drawing, consecutive frame callbacks ask for consecutive frame
/// numbers (modulo 2^32).
pub proof fn law_lifecycle_frames_are_numbered_in_order(
    s0: AppState,
    s1: AppState,
    s2: AppState,
    f0: u32,
    f1: u32,
    w: i32,
    h: i32,
    w1: i32,
    h1: i32,
)
    requires
        AppState::frame_step(s0, s1, FrameAction::Draw { frame: f0, width: w, height: h }),
        AppState::frame_step(s1, s2, FrameAction::Draw { frame: f1, width: w1, height: h1 }),
    ensures
        f1 == vstd::wrapping::u32_specs::wrapping_add(f0, 1),
        w1 == w && h1 == h,
{
}

/// Whether a touch with this action code is worth logging: presses (0) and
/// releases (1) are, moves and the rest are not.
pub fn touch_is_logged(action: i32) -> (b: bool)
    ensures
        b == (action == 0 || action == 1),
{
    action == 0 || action == 1
}

} // verus!
