use vstd::prelude::*;
use crate::format::{choose_format_index, preferred_format, FormatCap};
use crate::swapchain::{config_of, swapchain_config, Size, SwapchainConfig};

verus! {

/// The ways a lifecycle transition can fail. Every one of them is fatal.
#[derive(Clone, Copy, Debug, PartialEq, Eq, Structural)]
pub enum Failure {
    /// No backend offers an adapter that can present to the surface.
    AdapterNotFound,
    /// The adapter refused to create a logical device and queue.
    DeviceRequestFailed,
    /// The fixed shader program did not compile.
    ShaderCompileError,
    /// The backend rejected the native window handle.
    SurfaceCreationFailed,
    /// No presentable image became available in time.
    SurfaceAcquireTimeout,
    /// The presentable surface is gone or out of date.
    SurfaceLost,
}

/// Where the lifecycle stands.
#[derive(Clone, Copy, Debug, PartialEq, Eq, Structural)]
pub enum Phase {
    /// No window has been made available yet.
    Uninitialized,
    /// A surface binding has been asked for.
    Binding,
    /// A surface exists; an adapter compatible with it has been asked for.
    Negotiating,
    /// A color format is chosen; the render context is being built.
    Building,
    /// Surface and render context exist and the swapchain is configured.
    Ready,
    /// Everything tied to the window has been released.
    Suspended,
    /// The window was closed; no further event is processed.
    Closed,
    /// A fatal failure stopped the lifecycle; no further event is processed.
    Aborted(Failure),
}

/// The orchestrator's state: the phase, the live surface binding (recorded
/// by its window's current size), the live render context (recorded by its
/// color format) and the format of a render context under construction.
#[derive(Clone, Copy, Debug, PartialEq, Eq)]
pub struct Lifecycle<F> {
    pub phase: Phase,
    pub surface: Option<Size>,
    pub context: Option<F>,
    pub pending: Option<F>,
}

/// The single draw issued for a frame.
#[derive(Clone, Copy, Debug, PartialEq, Eq, Structural)]
pub struct FramePlan {
    pub vertex_count: u32,
    pub instance_count: u32,
}

/// An input to the orchestrator: a platform lifecycle event, or the outcome
/// of an action it asked for.
#[derive(Clone, Debug)]
pub enum Event<F> {
    /// The platform made a window available.
    Resumed,
    /// The platform may invalidate the window.
    Suspended,
    /// The window now has the given size.
    Resized(Size),
    /// The platform asks for a frame.
    RedrawRequested,
    /// The user closed the window.
    CloseRequested,
    /// Outcome of [`Action::BindSurface`]: the window and its presentable
    /// surface exist, the window having the given size.
    SurfaceBound(Size),
    /// Outcome of [`Action::RequestAdapter`]: an adapter compatible with the
    /// surface was found, and the surface advertises these formats on it.
    AdapterFound(Vec<FormatCap<F>>),
    /// Outcome of [`Action::BuildContext`]: device, queue and pipeline exist.
    ContextBuilt,
    /// An action the orchestrator asked for failed.
    Failed(Failure),
}

/// What the caller must do in answer to an event.
#[derive(Clone, Copy, Debug, PartialEq, Eq)]
pub enum Action<F> {
    /// Nothing at all.
    Nothing,
    /// Create the window and a presentable surface for it, then report
    /// [`Event::SurfaceBound`].
    BindSurface,
    /// Ask for an adapter compatible with the surface, then report
    /// [`Event::AdapterFound`] with the surface's formats on it.
    RequestAdapter,
    /// Build device, queue and pipeline for the given color format, then
    /// report [`Event::ContextBuilt`].
    BuildContext(F),
    /// Apply the configuration to the surface and ask the window for a
    /// redraw.
    ConfigureAndRedraw(SwapchainConfig<F>),
    /// Acquire the next image, clear it, issue the draw, submit, present.
    RenderFrame(FramePlan),
    /// Drop the render context, the adapter and the surface binding.
    ReleaseAll,
    /// Leave the event loop.
    Exit,
    /// Stop the process, reporting the failure.
    Abort(Failure),
}

/// Vertices of the procedural triangle drawn each frame.
pub const TRIANGLE_VERTICES: u32 = 3;

/// Instances drawn each frame.
pub const TRIANGLE_INSTANCES: u32 = 1;

pub open spec fn triangle() -> FramePlan {
    FramePlan { vertex_count: TRIANGLE_VERTICES, instance_count: TRIANGLE_INSTANCES }
}

impl<F> Lifecycle<F> {
    /// The state before any event.
    pub open spec fn initial() -> Lifecycle<F> {
        Lifecycle { phase: Phase::Uninitialized, surface: None, context: None, pending: None }
    }

    /// Which objects are live in each phase.
    pub open spec fn wf(self) -> bool {
        match self.phase {
            Phase::Negotiating => self.surface is Some && self.context is None
                && self.pending is None,
            Phase::Building => self.surface is Some && self.context is None
                && self.pending is Some,
            Phase::Ready => self.surface is Some && self.context is Some && self.pending is None,
            _ => self.surface is None && self.context is None && self.pending is None,
        }
    }

    /// No further event has any effect.
    pub open spec fn is_terminal(self) -> bool {
        self.phase is Closed || self.phase is Aborted
    }

    /// The state with the given phase and nothing live.
    pub open spec fn bare(phase: Phase) -> Lifecycle<F> {
        Lifecycle { phase, surface: None, context: None, pending: None }
    }
}

/// The orchestrator's answer to one event, and its state afterwards.
pub open spec fn step<F>(s: Lifecycle<F>, e: Event<F>) -> (Lifecycle<F>, Action<F>) {
    if s.is_terminal() {
        (s, Action::Nothing)
    } else {
        match e {
            Event::Resumed => match s.phase {
                Phase::Uninitialized | Phase::Suspended => (
                    Lifecycle::bare(Phase::Binding),
                    Action::BindSurface,
                ),
                Phase::Ready => (
                    s,
                    Action::ConfigureAndRedraw(config_of(s.context->0, s.surface->0)),
                ),
                _ => (s, Action::Nothing),
            },
            Event::Suspended => (Lifecycle::bare(Phase::Suspended), Action::ReleaseAll),
            Event::Resized(size) => match s.phase {
                Phase::Ready => (
                    Lifecycle { surface: Some(size), ..s },
                    Action::ConfigureAndRedraw(config_of(s.context->0, size)),
                ),
                Phase::Negotiating | Phase::Building => (
                    Lifecycle { surface: Some(size), ..s },
                    Action::Nothing,
                ),
                _ => (s, Action::Nothing),
            },
            Event::RedrawRequested => if s.phase is Ready {
                (s, Action::RenderFrame(triangle()))
            } else {
                (s, Action::Nothing)
            },
            Event::CloseRequested => (Lifecycle::bare(Phase::Closed), Action::Exit),
            Event::SurfaceBound(size) => if s.phase is Binding {
                (
                    Lifecycle { phase: Phase::Negotiating, surface: Some(size), ..s },
                    Action::RequestAdapter,
                )
            } else {
                (s, Action::Nothing)
            },
            Event::AdapterFound(caps) => if s.phase is Negotiating {
                match preferred_format(caps@) {
                    Some(f) => (
                        Lifecycle { phase: Phase::Building, pending: Some(f), ..s },
                        Action::BuildContext(f),
                    ),
                    None => (
                        Lifecycle::bare(Phase::Aborted(Failure::AdapterNotFound)),
                        Action::Abort(Failure::AdapterNotFound),
                    ),
                }
            } else {
                (s, Action::Nothing)
            },
            Event::ContextBuilt => if s.phase is Building {
                (
                    Lifecycle { phase: Phase::Ready, context: s.pending, pending: None, ..s },
                    Action::ConfigureAndRedraw(config_of(s.pending->0, s.surface->0)),
                )
            } else {
                (s, Action::Nothing)
            },
            Event::Failed(k) => match s.phase {
                Phase::Binding | Phase::Negotiating | Phase::Building | Phase::Ready => (
                    Lifecycle::bare(Phase::Aborted(k)),
                    Action::Abort(k),
                ),
                _ => (s, Action::Nothing),
            },
        }
    }
}

fn bare<F>(phase: Phase) -> (r: Lifecycle<F>)
    ensures
        r == Lifecycle::<F>::bare(phase),
{
    Lifecycle { phase, surface: None, context: None, pending: None }
}

fn frame_plan() -> (r: FramePlan)
    ensures
        r == triangle(),
{
    FramePlan { vertex_count: TRIANGLE_VERTICES, instance_count: TRIANGLE_INSTANCES }
}

fn transition<F: Copy>(s: Lifecycle<F>, e: Event<F>) -> (r: (Lifecycle<F>, Action<F>))
    requires
        s.wf(),
    ensures
        r == step(s, e),
        r.0.wf(),
{
    match s.phase {
        Phase::Closed | Phase::Aborted(_) => {
            return (s, Action::Nothing);
        },
        _ => {},
    }
    match e {
        Event::Resumed => match s.phase {
            Phase::Uninitialized | Phase::Suspended => (bare(Phase::Binding), Action::BindSurface),
            Phase::Ready => {
                let cfg = swapchain_config(s.context.unwrap(), s.surface.unwrap());
                (s, Action::ConfigureAndRedraw(cfg))
            },
            _ => (s, Action::Nothing),
        },
        Event::Suspended => (bare(Phase::Suspended), Action::ReleaseAll),
        Event::Resized(size) => match s.phase {
            Phase::Ready => {
                let cfg = swapchain_config(s.context.unwrap(), size);
                (Lifecycle { surface: Some(size), ..s }, Action::ConfigureAndRedraw(cfg))
            },
            Phase::Negotiating | Phase::Building => (
                Lifecycle { surface: Some(size), ..s },
                Action::Nothing,
            ),
            _ => (s, Action::Nothing),
        },
        Event::RedrawRequested => match s.phase {
            Phase::Ready => (s, Action::RenderFrame(frame_plan())),
            _ => (s, Action::Nothing),
        },
        Event::CloseRequested => (bare(Phase::Closed), Action::Exit),
        Event::SurfaceBound(size) => match s.phase {
            Phase::Binding => (
                Lifecycle { phase: Phase::Negotiating, surface: Some(size), ..s },
                Action::RequestAdapter,
            ),
            _ => (s, Action::Nothing),
        },
        Event::AdapterFound(caps) => match s.phase {
            Phase::Negotiating => match choose_format_index(&caps) {
                Some(i) => {
                    let f = caps[i].format;
                    (
                        Lifecycle { phase: Phase::Building, pending: Some(f), ..s },
                        Action::BuildContext(f),
                    )
                },
                None => (
                    bare(Phase::Aborted(Failure::AdapterNotFound)),
                    Action::Abort(Failure::AdapterNotFound),
                ),
            },
            _ => (s, Action::Nothing),
        },
        Event::ContextBuilt => match s.phase {
            Phase::Building => {
                let f = s.pending.unwrap();
                let cfg = swapchain_config(f, s.surface.unwrap());
                (
                    Lifecycle { phase: Phase::Ready, context: Some(f), pending: None, ..s },
                    Action::ConfigureAndRedraw(cfg),
                )
            },
            _ => (s, Action::Nothing),
        },
        Event::Failed(k) => match s.phase {
            Phase::Binding | Phase::Negotiating | Phase::Building | Phase::Ready => (
                bare(Phase::Aborted(k)),
                Action::Abort(k),
            ),
            _ => (s, Action::Nothing),
        },
    }
}

/// Drives the surface lifecycle: takes events one at a time and answers
/// each with the action the caller must perform.
pub struct Orchestrator<F: Copy> {
    state: Lifecycle<F>,
}

impl<F: Copy> View for Orchestrator<F> {
    type V = Lifecycle<F>;

    closed spec fn view(&self) -> Lifecycle<F> {
        self.state
    }
}

impl<F: Copy> Orchestrator<F> {
    #[verifier::type_invariant]
    spec fn inv(self) -> bool {
        self.state.wf()
    }

    /// A lifecycle that has seen no event.
    pub fn new() -> (r: Self)
        ensures
            r@ == Lifecycle::<F>::initial(),
    {
        Orchestrator { state: bare(Phase::Uninitialized) }
    }

    /// Takes one event and returns the action the caller must perform.
    pub fn handle(&mut self, e: Event<F>) -> (r: Action<F>)
        ensures
            (final(self)@, r) == step(old(self)@, e),
            final(self)@.wf(),
    {
        proof {
            use_type_invariant(&*self);
        }
        let (next, action) = transition(self.state, e);
        self.state = next;
        action
    }

    /// The current state.
    pub fn state(&self) -> (r: Lifecycle<F>)
        ensures
            r == self@,
            r.wf(),
    {
        proof {
            use_type_invariant(self);
        }
        self.state
    }

    /// The current phase.
    pub fn phase(&self) -> (r: Phase)
        ensures
            r == self@.phase,
    {
        self.state.phase
    }

    /// Whether surface and render context exist and the swapchain is
    /// configured.
    pub fn is_ready(&self) -> (r: bool)
        ensures
            r == (self@.phase is Ready),
    {
        match self.state.phase {
            Phase::Ready => true,
            _ => false,
        }
    }

    /// The color format of the live render context, if one exists.
    pub fn color_format(&self) -> (r: Option<F>)
        ensures
            r == self@.context,
    {
        self.state.context
    }

    /// The size of the live surface binding's window, if one exists.
    pub fn surface_size(&self) -> (r: Option<Size>)
        ensures
            r == self@.surface,
    {
        self.state.surface
    }
}

} // verus!
