//! The decisions of the native activity's main loop: what each platform
//! event asks of the loop, whether the loop goes on, and whether a frame is
//! drawn after the events of one turn. Polling, creating the Vulkan
//! renderer, reading input and drawing stay with the loop's owner.

use vstd::prelude::*;

verus! {

/// A platform event of the native activity, as far as the loop tells
/// events apart.
#[derive(Debug, Clone, Copy, PartialEq, Eq, Structural)]
pub enum ActivityEvent {
    /// A window was created.
    InitWindow,
    /// The window is going away.
    TerminateWindow,
    /// Input events are waiting.
    InputAvailable,
    /// The activity paused.
    Pause,
    /// The activity resumed.
    Resume,
    /// The activity is being destroyed.
    Destroy,
    /// Any other event.
    Other,
}

/// What the loop's owner is to do for an event.
#[derive(Debug, Clone, Copy, PartialEq, Eq, Structural)]
pub enum ActivityAction {
    /// Create a renderer for the new window and report whether it worked
    /// with [`MainLoop::renderer_created`].
    CreateRenderer,
    /// Drop the renderer.
    DropRenderer,
    /// Read the waiting input events and pass them to the menu.
    HandleInput,
    /// Note that the activity paused.
    NotePaused,
    /// Note that the activity resumed.
    NoteResumed,
    /// Note that the activity is being destroyed; the loop ends after this
    /// turn.
    Stop,
    /// Nothing.
    Nothing,
}

/// What an event does to the loop's state (whether it goes on, whether a
/// renderer exists) and what it asks of the owner. Only the end of the
/// window drops the renderer, only a destroy stops the loop; a renderer
/// comes only from [`MainLoop::renderer_created`].
pub open spec fn event_effect(running: bool, has_renderer: bool, e: ActivityEvent) -> (
    bool,
    bool,
    ActivityAction,
) {
    match e {
        ActivityEvent::InitWindow => (running, has_renderer, ActivityAction::CreateRenderer),
        ActivityEvent::TerminateWindow => (running, false, ActivityAction::DropRenderer),
        ActivityEvent::InputAvailable => (running, has_renderer, ActivityAction::HandleInput),
        ActivityEvent::Pause => (running, has_renderer, ActivityAction::NotePaused),
        ActivityEvent::Resume => (running, has_renderer, ActivityAction::NoteResumed),
        ActivityEvent::Destroy => (false, has_renderer, ActivityAction::Stop),
        ActivityEvent::Other => (running, has_renderer, ActivityAction::Nothing),
    }
}

/// The state (whether the loop goes on, whether a renderer exists) after
/// the events `es`, in order, from `running` and `has_renderer`, with no
/// renderer created in between.
pub open spec fn after_events(running: bool, has_renderer: bool, es: Seq<ActivityEvent>) -> (
    bool,
    bool,
)
    decreases es.len(),
{
    if es.len() == 0 {
        (running, has_renderer)
    } else {
        let prev = after_events(running, has_renderer, es.drop_last());
        let next = event_effect(prev.0, prev.1, es.last());
        (next.0, next.1)
    }
}

/// The state of the activity's main loop.
pub struct MainLoop {
    running: bool,
    has_renderer: bool,
}

impl MainLoop {
    /// Whether the loop goes on after this turn.
    pub closed spec fn spec_running(&self) -> bool {
        self.running
    }

    /// Whether a renderer exists.
    pub closed spec fn spec_has_renderer(&self) -> bool {
        self.has_renderer
    }

    /// A loop that runs, with no renderer yet.
    pub fn new() -> (m: Self)
        ensures
            m.spec_running(),
            !m.spec_has_renderer(),
    {
        MainLoop { running: true, has_renderer: false }
    }

    /// Takes one platform event: updates the state and says what the owner
    /// is to do, as [`event_effect`] states.
    pub fn on_event(&mut self, e: ActivityEvent) -> (a: ActivityAction)
        ensures
            event_effect(old(self).spec_running(), old(self).spec_has_renderer(), e) == (
                final(self).spec_running(),
                final(self).spec_has_renderer(),
                a,
            ),
    {
        match e {
            ActivityEvent::InitWindow => ActivityAction::CreateRenderer,
            ActivityEvent::TerminateWindow => {
                self.has_renderer = false;
                ActivityAction::DropRenderer
            },
            ActivityEvent::InputAvailable => ActivityAction::HandleInput,
            ActivityEvent::Pause => ActivityAction::NotePaused,
            ActivityEvent::Resume => ActivityAction::NoteResumed,
            ActivityEvent::Destroy => {
                self.running = false;
                ActivityAction::Stop
            },
            ActivityEvent::Other => ActivityAction::Nothing,
        }
    }

    /// The owner tried to create a renderer: with `ok` the new renderer
    /// takes the place of any earlier one; a failure leaves the state as it
    /// was (an earlier renderer is kept).
    pub fn renderer_created(&mut self, ok: bool)
        ensures
            final(self).spec_running() == old(self).spec_running(),
            final(self).spec_has_renderer() == (ok || old(self).spec_has_renderer()),
    {
        if ok {
            self.has_renderer = true;
        }
    }

    /// Whether the loop goes on after this turn.
    pub fn is_running(&self) -> (b: bool)
        ensures
            b == self.spec_running(),
    {
        self.running
    }

    /// Whether a frame is drawn at the end of this turn: whenever a renderer
    /// exists, also in the turn that stops the loop.
    pub fn should_render(&self) -> (b: bool)
        ensures
            b == self.spec_has_renderer(),
    {
        self.has_renderer
    }
}

/// What each event may change: only the end of the window drops the
/// renderer (a pause, a resume or input keep it, and frames go on being
/// drawn), and nothing creates one; only a destroy stops the loop, and
/// nothing starts it.
pub proof fn law_activity_event_changes(running: bool, has_renderer: bool, e: ActivityEvent)
    ensures
        e != ActivityEvent::TerminateWindow ==> event_effect(running, has_renderer, e).1
            == has_renderer,
        e == ActivityEvent::TerminateWindow ==> !event_effect(running, has_renderer, e).1,
        e != ActivityEvent::Destroy ==> event_effect(running, has_renderer, e).0 == running,
        e == ActivityEvent::Destroy ==> !event_effect(running, has_renderer, e).0,
        (e == ActivityEvent::InitWindow) == (event_effect(running, has_renderer, e).2
            == ActivityAction::CreateRenderer),
        (e == ActivityEvent::TerminateWindow) == (event_effect(running, has_renderer, e).2
            == ActivityAction::DropRenderer),
        (e == ActivityEvent::InputAvailable) == (event_effect(running, has_renderer, e).2
            == ActivityAction::HandleInput),
        (e == ActivityEvent::Pause) == (event_effect(running, has_renderer, e).2
            == ActivityAction::NotePaused),
        (e == ActivityEvent::Resume) == (event_effect(running, has_renderer, e).2
            == ActivityAction::NoteResumed),
        (e == ActivityEvent::Destroy) == (event_effect(running, has_renderer, e).2
            == ActivityAction::Stop),
        (e == ActivityEvent::Other) == (event_effect(running, has_renderer, e).2
            == ActivityAction::Nothing),
{
}

/// Once the loop is stopped, no sequence of events starts it again.
pub proof fn law_activity_stop_is_final(has_renderer: bool, es: Seq<ActivityEvent>)
    ensures
        !after_events(false, has_renderer, es).0,
    decreases es.len(),
{
    if es.len() > 0 {
        law_activity_stop_is_final(has_renderer, es.drop_last());
    }
}

/// Events alone never give the loop a renderer: without a renderer, no
/// frame is drawn until one is reported created.
pub proof fn law_activity_no_renderer_from_events(running: bool, es: Seq<ActivityEvent>)
    ensures
        !after_events(running, false, es).1,
    decreases es.len(),
{
    if es.len() > 0 {
        law_activity_no_renderer_from_events(running, es.drop_last());
    }
}

/// Any sequence of events that holds a destroy leaves the loop stopped.
pub proof fn law_activity_destroy_stops(running: bool, has_renderer: bool, es: Seq<ActivityEvent>)
    requires
        es.contains(ActivityEvent::Destroy),
    ensures
        !after_events(running, has_renderer, es).0,
    decreases es.len(),
{
    if es.last() != ActivityEvent::Destroy {
        let k = choose|k: int| 0 <= k < es.len() && es[k] == ActivityEvent::Destroy;
        assert(es.drop_last()[k] == ActivityEvent::Destroy);
        law_activity_destroy_stops(running, has_renderer, es.drop_last());
    }
}

/// Any sequence of events that holds the end of the window leaves no
/// renderer: nothing is drawn after the window is gone until a new renderer
/// is reported created.
pub proof fn law_activity_window_end_drops_renderer(
    running: bool,
    has_renderer: bool,
    es: Seq<ActivityEvent>,
)
    requires
        es.contains(ActivityEvent::TerminateWindow),
    ensures
        !after_events(running, has_renderer, es).1,
    decreases es.len(),
{
    if es.last() != ActivityEvent::TerminateWindow {
        let k = choose|k: int| 0 <= k < es.len() && es[k] == ActivityEvent::TerminateWindow;
        assert(es.drop_last()[k] == ActivityEvent::TerminateWindow);
        law_activity_window_end_drops_renderer(running, has_renderer, es.drop_last());
    }
}

} // verus!
