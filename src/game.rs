//! The window lifecycle controller: creates the window on the first resume
//! signal, sets up its surface, and carries out what each window event asks.
use std::sync::Arc;

use vstd::prelude::*;

use crate::config::InitError;
use crate::gpu::Gpu;
use crate::lifecycle::{Action, Event, Lifecycle, INITIAL_SIZE, WINDOW_TITLE};

verus! {

#[verifier::external_type_specification]
#[verifier::external_body]
pub struct ExActiveEventLoop(winit::event_loop::ActiveEventLoop);

/// What the controller asked of the windowing toolkit.
pub struct HostCalls {
    windows: Ghost<Seq<(Seq<char>, u32, u32, bool)>>,
    exits: Ghost<nat>,
}

impl HostCalls {
    /// Title and logical size of each window requested, in order, and
    /// whether it was created.
    pub closed spec fn windows(&self) -> Seq<(Seq<char>, u32, u32, bool)> {
        self.windows@
    }

    /// How many times exit was signalled to the event loop.
    pub closed spec fn exits(&self) -> nat {
        self.exits@
    }

    /// Nothing asked yet.
    pub fn new() -> (r: HostCalls)
        ensures
            r.windows() == Seq::<(Seq<char>, u32, u32, bool)>::empty(),
            r.exits() == 0,
    {
        HostCalls { windows: Ghost(Seq::empty()), exits: Ghost(0) }
    }
}

/// Relies on `winit::event_loop::ActiveEventLoop::create_window`, with the
/// window's title and initial logical size: the new window, or `None` when the
/// platform refused it. The request is recorded in `calls`.
#[verifier::external_body]
fn create_window(
    event_loop: &winit::event_loop::ActiveEventLoop,
    title: &str,
    width: u32,
    height: u32,
    calls: &mut HostCalls,
) -> (r: Option<winit::window::Window>)
    ensures
        final(calls).windows() == old(calls).windows().push((title@, width, height, r is Some)),
        final(calls).exits() == old(calls).exits(),
{
    let attributes = winit::window::Window::default_attributes().with_title(title).with_inner_size(
        winit::dpi::LogicalSize::new(width, height),
    );
    event_loop.create_window(attributes).ok()
}

/// Relies on `winit::window::Window::inner_size`: the window's physical size
/// as (width, height).
#[verifier::external_body]
fn inner_size(window: &winit::window::Window) -> (u32, u32) {
    let size = window.inner_size();
    (size.width, size.height)
}

/// Relies on `winit::event_loop::ActiveEventLoop::exit`: the event loop stops
/// once the current iteration ends. The signal is recorded in `calls`.
#[verifier::external_body]
fn exit_loop(event_loop: &winit::event_loop::ActiveEventLoop, calls: &mut HostCalls)
    ensures
        final(calls).exits() == old(calls).exits() + 1,
        final(calls).windows() == old(calls).windows(),
{
    event_loop.exit()
}

/// How many of the requested windows were created.
pub open spec fn windows_opened(requests: Seq<(Seq<char>, u32, u32, bool)>) -> nat
    decreases requests.len(),
{
    if requests.len() == 0 {
        0
    } else {
        windows_opened(requests.drop_last()) + if requests.last().3 { 1nat } else { 0nat }
    }
}

/// What a resume signal did.
#[derive(Debug, Clone, Copy, PartialEq, Eq, Structural)]
pub enum Resumed {
    /// The window already existed: nothing was done.
    AlreadyRunning,
    /// The platform refused to create the window: the application has none.
    NoWindow,
    /// The window was created and its surface configured.
    Ready,
}

/// The application: one window and the GPU surface that presents to it.
pub struct Game {
    lifecycle: Lifecycle,
    window: Option<Arc<winit::window::Window>>,
    gpu: Option<Gpu>,
    host: HostCalls,
}

impl Game {
    /// The controller's state.
    pub closed spec fn state(&self) -> Lifecycle {
        self.lifecycle
    }

    /// Whether the game holds a window.
    pub closed spec fn has_window(&self) -> bool {
        self.window.is_some()
    }

    /// The surface manager, once initialised.
    pub closed spec fn surface(&self) -> Option<Gpu> {
        self.gpu
    }

    /// What the game asked of the windowing toolkit.
    pub closed spec fn host(&self) -> HostCalls {
        self.host
    }

    /// A window and its surface exist together, exactly when the controller
    /// is ready; one window was created if the controller says so, else
    /// none; and exit was signalled once if the controller has exited, else
    /// never.
    pub closed spec fn wf(&self) -> bool {
        &&& self.lifecycle.wf()
        &&& self.lifecycle.ready <==> self.gpu.is_some()
        &&& self.window.is_some() <==> self.gpu.is_some()
        &&& self.gpu matches Some(g) ==> g.wf()
        &&& windows_opened(self.host.windows()) == if self.lifecycle.window_created {
            1nat
        } else {
            0nat
        }
        &&& self.host.exits() == if self.lifecycle.exited { 1nat } else { 0nat }
    }

    /// What a well-formed game guarantees: at most one window is ever
    /// created, a surface exists together with the window exactly when the
    /// controller is ready, and exit has been signalled at most once.
    pub proof fn lemma_wf(&self)
        requires
            self.wf(),
        ensures
            windows_opened(self.host().windows()) <= 1,
            windows_opened(self.host().windows()) == 1 <==> self.state().window_created,
            self.state().ready <==> self.surface().is_some(),
            self.has_window() <==> self.surface().is_some(),
            self.surface() matches Some(g) ==> g.wf(),
            self.host().exits() <= 1,
            self.host().exits() == 1 <==> self.state().exited,
            self.state().wf(),
    {
    }

    /// A game with no window yet.
    pub fn new() -> (r: Game)
        ensures
            r.wf(),
            r.state() == Lifecycle::new_spec(),
            r.surface().is_none(),
            !r.has_window(),
    {
        Game { lifecycle: Lifecycle::new(), window: None, gpu: None, host: HostCalls::new() }
    }

    /// A resume signal. While no window has been created, the window is
    /// requested with its title and initial size; if the platform refuses,
    /// the game stays without one and a later signal asks again. Once it is
    /// created, its surface is set up at the window's physical size; a
    /// failure there is returned, and leaves the game with neither window
    /// nor surface.
    pub fn resumed(&mut self, event_loop: &winit::event_loop::ActiveEventLoop) -> (r: Result<
        Resumed,
        InitError,
    >)
        requires
            old(self).wf(),
        ensures
            final(self).wf(),
            old(self).state().window_created ==> r == Ok::<Resumed, InitError>(
                Resumed::AlreadyRunning,
            ) && *final(self) == *old(self),
            !old(self).state().window_created ==> {
                &&& r != Ok::<Resumed, InitError>(Resumed::AlreadyRunning)
                &&& final(self).host().windows() == old(self).host().windows().push(
                    (WINDOW_TITLE@, INITIAL_SIZE, INITIAL_SIZE, final(self).state().window_created),
                )
                &&& final(self).host().exits() == old(self).host().exits()
            },
            r == Ok::<Resumed, InitError>(Resumed::NoWindow) ==> {
                &&& final(self).state() == old(self).state()
                &&& !final(self).state().window_created
            },
            r is Err ==> final(self).state() == old(self).state().after_attempt(true),
            !old(self).state().window_created && !(r matches Ok(Resumed::Ready)) ==> {
                &&& final(self).surface().is_none()
                &&& !final(self).has_window()
            },
            r matches Ok(Resumed::Ready) ==> {
                &&& !old(self).state().window_created
                &&& final(self).has_window()
                &&& final(self).state() == (Lifecycle {
                    window_created: true,
                    ready: true,
                    width: final(self).state().width,
                    height: final(self).state().height,
                    ..old(self).state()
                })
                &&& final(self).surface() matches Some(g) && g.applied() == seq![g.config()]
                    && g.config().width == final(self).state().width && g.config().height
                    == final(self).state().height
            },
    {
        if !self.lifecycle.resumed() {
            return Ok(Resumed::AlreadyRunning);
        }
        let window = match create_window(
            event_loop,
            WINDOW_TITLE,
            INITIAL_SIZE,
            INITIAL_SIZE,
            &mut self.host,
        ) {
            Some(w) => Arc::new(w),
            None => {
                proof {
                    let w = self.host.windows();
                    assert(w.drop_last() == old(self).host.windows());
                }
                return Ok(Resumed::NoWindow);
            },
        };
        proof {
            let w = self.host.windows();
            assert(w.drop_last() == old(self).host.windows());
        }
        self.lifecycle.window_opened();
        let (width, height) = inner_size(&window);
        match Gpu::new(window.clone(), width, height) {
            Ok(gpu) => {
                self.window = Some(window);
                self.gpu = Some(gpu);
                self.lifecycle.initialized(width, height);
                Ok(Resumed::Ready)
            },
            Err(e) => Err(e),
        }
    }

    /// Dispatches a window event: a close request makes the event loop exit,
    /// a resize reconfigures the surface, and every other kind is ignored.
    pub fn window_event(&mut self, event_loop: &winit::event_loop::ActiveEventLoop, event: Event)
        requires
            old(self).wf(),
        ensures
            final(self).wf(),
            final(self).state() == old(self).state().after_event(event),
            final(self).has_window() == old(self).has_window(),
            final(self).host().windows() == old(self).host().windows(),
            final(self).host().exits() == old(self).host().exits() + if old(self).state().action_for(
                event,
            ) == Action::Exit {
                1nat
            } else {
                0nat
            },
            old(self).state().action_for(event) matches Action::Resize { width, height } ==> {
                &&& old(self).surface() matches Some(g)
                &&& final(self).surface() matches Some(h)
                &&& Gpu::resize_result(g, h, width, height)
            },
            !(old(self).state().action_for(event) is Resize) ==> final(self).surface() == old(
                self,
            ).surface(),
    {
        match self.lifecycle.window_event(event) {
            Action::Exit => exit_loop(event_loop, &mut self.host),
            Action::Resize { width, height } => {
                match &mut self.gpu {
                    Some(gpu) => gpu.resize(width, height),
                    None => {},
                }
            },
            Action::Ignore => {},
        }
    }
}

} // verus!
