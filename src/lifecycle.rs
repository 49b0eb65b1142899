//! The decisions of the window lifecycle controller: when to create the
//! window, and what each window event asks of the surface and the event loop.
use vstd::prelude::*;

verus! {

/// Title of the window.
pub const WINDOW_TITLE: &'static str = "pawo the game";

/// Initial logical width and height of the window.
pub const INITIAL_SIZE: u32 = 128;

/// A window event, as far as the controller tells kinds apart.
#[derive(Debug, Clone, Copy, PartialEq, Eq, Structural)]
pub enum Event {
    CloseRequested,
    Resized { width: u32, height: u32 },
    RedrawRequested,
    /// Any other kind, including kinds the toolkit adds later.
    Other,
}

/// What the host must do after an event.
#[derive(Debug, Clone, Copy, PartialEq, Eq, Structural)]
pub enum Action {
    /// Nothing to do.
    Ignore,
    /// Reconfigure the surface to this size.
    Resize { width: u32, height: u32 },
    /// Tell the event loop to exit.
    Exit,
}

/// State of the controller.
#[derive(Debug, Clone, Copy, PartialEq, Eq, Structural)]
pub struct Lifecycle {
    /// A window has been created.
    pub window_created: bool,
    /// The surface has been initialised for the window.
    pub ready: bool,
    /// Exit has been signalled.
    pub exited: bool,
    /// Last known physical size of the window.
    pub width: u32,
    pub height: u32,
}

impl Lifecycle {
    /// Consistent states: the surface is only ready once a window exists.
    pub open spec fn wf(&self) -> bool {
        self.ready ==> self.window_created
    }

    /// Whether a resume signal in this state creates the window.
    pub open spec fn creates_window(&self) -> bool {
        !self.window_created
    }

    /// The state after a resume signal whose window creation, if one was
    /// attempted, succeeded when `created` holds.
    pub open spec fn after_attempt(self, created: bool) -> Lifecycle {
        if self.creates_window() && created {
            Lifecycle { window_created: true, ..self }
        } else {
            self
        }
    }

    /// The action taken for `e` in this state.
    pub open spec fn action_for(&self, e: Event) -> Action {
        if self.exited {
            Action::Ignore
        } else {
            match e {
                Event::CloseRequested => Action::Exit,
                Event::Resized { width, height } => if self.ready {
                    Action::Resize { width, height }
                } else {
                    Action::Ignore
                },
                Event::RedrawRequested => Action::Ignore,
                Event::Other => Action::Ignore,
            }
        }
    }

    /// The state after event `e`.
    pub open spec fn after_event(self, e: Event) -> Lifecycle {
        match self.action_for(e) {
            Action::Exit => Lifecycle { exited: true, ..self },
            Action::Resize { width, height } => Lifecycle { width, height, ..self },
            Action::Ignore => self,
        }
    }

    /// The state before the first resume signal.
    pub open spec fn new_spec() -> Lifecycle {
        Lifecycle { window_created: false, ready: false, exited: false, width: 0, height: 0 }
    }

    /// The state before the first resume signal.
    pub fn new() -> (r: Lifecycle)
        ensures
            r == Lifecycle::new_spec(),
            r.wf(),
    {
        Lifecycle { window_created: false, ready: false, exited: false, width: 0, height: 0 }
    }

    /// A resume signal: returns `true` when the caller must create the
    /// window now, that is while no window has been created.
    pub fn resumed(&self) -> (create: bool)
        ensures
            create == self.creates_window(),
    {
        !self.window_created
    }

    /// The window requested after a resume signal has been created.
    pub fn window_opened(&mut self)
        requires
            old(self).creates_window(),
        ensures
            *final(self) == old(self).after_attempt(true),
            final(self).wf(),
    {
        self.window_created = true;
    }

    /// The window exists with this physical size and its surface is
    /// initialised: events are dispatched from now on.
    pub fn initialized(&mut self, width: u32, height: u32)
        requires
            old(self).window_created,
        ensures
            *final(self) == (Lifecycle { ready: true, width, height, ..*old(self) }),
            final(self).wf(),
    {
        self.ready = true;
        self.width = width;
        self.height = height;
    }

    /// Dispatches a window event. Every kind has a defined result: a close
    /// request signals exit, a resize is forwarded once the surface is ready,
    /// and after exit has been signalled every event is ignored.
    pub fn window_event(&mut self, event: Event) -> (r: Action)
        requires
            old(self).wf(),
        ensures
            r == old(self).action_for(event),
            *final(self) == old(self).after_event(event),
            final(self).wf(),
    {
        if self.exited {
            return Action::Ignore;
        }
        match event {
            Event::CloseRequested => {
                self.exited = true;
                Action::Exit
            },
            Event::Resized { width, height } => {
                if !self.ready {
                    return Action::Ignore;
                }
                self.width = width;
                self.height = height;
                Action::Resize { width, height }
            },
            Event::RedrawRequested => Action::Ignore,
            Event::Other => Action::Ignore,
        }
    }
}

/// How many windows are created by resume signals from `s` whose window
/// creations, where attempted, succeed as `outcomes` says, in order.
pub open spec fn windows_created(s: Lifecycle, outcomes: Seq<bool>) -> nat
    decreases outcomes.len(),
{
    if outcomes.len() == 0 {
        0
    } else {
        (if s.creates_window() && outcomes[0] { 1nat } else { 0nat }) + windows_created(
            s.after_attempt(outcomes[0]),
            outcomes.drop_first(),
        )
    }
}

/// At most one window is ever created, however many resume signals come and
/// however many creations fail; once a window exists, no further signal
/// creates one.
pub proof fn lemma_single_window(s: Lifecycle, outcomes: Seq<bool>)
    ensures
        windows_created(s, outcomes) <= 1,
        s.window_created ==> windows_created(s, outcomes) == 0,
    decreases outcomes.len(),
{
    if outcomes.len() > 0 {
        lemma_single_window(s.after_attempt(outcomes[0]), outcomes.drop_first());
    }
}

/// The state after the events `es`, in order.
pub open spec fn after_events(s: Lifecycle, es: Seq<Event>) -> Lifecycle
    decreases es.len(),
{
    if es.len() == 0 {
        s
    } else {
        after_events(s.after_event(es[0]), es.drop_first())
    }
}

/// Once exit has been signalled, no later event is acted on, so exit is
/// signalled at most once.
pub proof fn lemma_exit_once(s: Lifecycle, es: Seq<Event>, i: int)
    requires
        s.exited,
        0 <= i < es.len(),
    ensures
        after_events(s, es.take(i)).action_for(es[i]) == Action::Ignore,
        after_events(s, es.take(i)).exited,
    decreases es.len(),
{
    if i > 0 {
        assert(es.take(i).drop_first() == es.drop_first().take(i - 1));
        lemma_exit_once(s.after_event(es[0]), es.drop_first(), i - 1);
    }
}

} // verus!
