use vstd::prelude::*;
use crate::lifecycle::{step, Action, Event, Lifecycle, Phase};
use crate::swapchain::{config_of, Size};

verus! {

/// The final state and the actions issued when `events` are handled in
/// order, starting from `s`.
pub open spec fn run<F>(s: Lifecycle<F>, events: Seq<Event<F>>) -> (Lifecycle<F>, Seq<Action<F>>)
    decreases events.len(),
{
    if events.len() == 0 {
        (s, Seq::empty())
    } else {
        let first = step(s, events[0]);
        let rest = run(first.0, events.drop_first());
        (rest.0, seq![first.1] + rest.1)
    }
}

/// How many render contexts the actions ask to be built.
pub open spec fn context_builds<F>(acts: Seq<Action<F>>) -> nat
    decreases acts.len(),
{
    if acts.len() == 0 {
        0
    } else {
        (if acts[0] is BuildContext { 1nat } else { 0nat }) + context_builds(acts.drop_first())
    }
}

/// None of the events is a suspend.
pub open spec fn no_suspend<F>(events: Seq<Event<F>>) -> bool {
    forall|i: int| 0 <= i < events.len() ==> !(#[trigger] events[i] is Suspended)
}

/// The action works on the live surface binding.
pub open spec fn uses_surface<F>(a: Action<F>) -> bool {
    a is RequestAdapter || a is BuildContext || a is ConfigureAndRedraw || a is RenderFrame
}

/// The action works on the live render context.
pub open spec fn uses_context<F>(a: Action<F>) -> bool {
    a is ConfigureAndRedraw || a is RenderFrame
}

/// A render context may still be asked for without a suspend first.
pub open spec fn may_build<F>(s: Lifecycle<F>) -> bool {
    !s.is_terminal() && s.context is None && s.pending is None
}

/// Every transition keeps the state well formed.
pub proof fn lemma_step_wf<F>(s: Lifecycle<F>, e: Event<F>)
    requires
        s.wf(),
    ensures
        step(s, e).0.wf(),
{
}

proof fn lemma_drop_first_no_suspend<F>(events: Seq<Event<F>>)
    requires
        events.len() > 0,
        no_suspend(events),
    ensures
        no_suspend(events.drop_first()),
{
    assert forall|i: int| 0 <= i < events.drop_first().len() implies !(
    #[trigger] events.drop_first()[i] is Suspended) by {
        assert(events.drop_first()[i] == events[i + 1]);
    }
}

proof fn lemma_builds_bounded<F>(s: Lifecycle<F>, events: Seq<Event<F>>)
    requires
        s.wf(),
        no_suspend(events),
    ensures
        context_builds(run(s, events).1) <= (if may_build(s) { 1nat } else { 0nat }),
    decreases events.len(),
{
    if events.len() > 0 {
        let first = step(s, events[0]);
        assert(!(events[0] is Suspended));
        lemma_step_wf(s, events[0]);
        lemma_drop_first_no_suspend(events);
        lemma_builds_bounded(first.0, events.drop_first());
        let acts = run(s, events).1;
        assert(acts.drop_first() == run(first.0, events.drop_first()).1);
    }
}

/// A render context is asked for at most once between two suspends: from
/// any state, a sequence of events without a suspend in it builds at most
/// one render context.
pub proof fn lemma_one_context_per_epoch<F>(s: Lifecycle<F>, events: Seq<Event<F>>)
    requires
        s.wf(),
        no_suspend(events),
    ensures
        context_builds(run(s, events).1) <= 1,
{
    lemma_builds_bounded(s, events);
}

/// Once a render context has its color format, every swapchain
/// configuration issued until the next suspend uses that format.
pub proof fn lemma_format_stable<F>(s: Lifecycle<F>, f: F, events: Seq<Event<F>>)
    requires
        s.wf(),
        s.context == Some(f) || s.pending == Some(f),
        no_suspend(events),
    ensures
        forall|k: int|
            0 <= k < run(s, events).1.len() && (#[trigger] run(s, events).1[k]) is ConfigureAndRedraw
                ==> run(s, events).1[k]->ConfigureAndRedraw_0.format == f,
{
    lemma_format_kept(s, f, events);
}

proof fn lemma_format_kept<F>(s: Lifecycle<F>, f: F, events: Seq<Event<F>>)
    requires
        s.wf(),
        s.context == Some(f) || s.pending == Some(f) || s.is_terminal(),
        no_suspend(events),
    ensures
        forall|k: int|
            0 <= k < run(s, events).1.len() && (#[trigger] run(s, events).1[k]) is ConfigureAndRedraw
                ==> run(s, events).1[k]->ConfigureAndRedraw_0.format == f,
    decreases events.len(),
{
    if events.len() > 0 {
        let first = step(s, events[0]);
        assert(!(events[0] is Suspended));
        lemma_step_wf(s, events[0]);
        lemma_drop_first_no_suspend(events);
        lemma_format_kept(first.0, f, events.drop_first());
        let acts = run(s, events).1;
        let rest = run(first.0, events.drop_first()).1;
        assert(acts == seq![first.1] + rest);
        assert forall|k: int|
            0 <= k < acts.len() && (#[trigger] acts[k]) is ConfigureAndRedraw
                implies acts[k]->ConfigureAndRedraw_0.format == f by {
            if k > 0 {
                assert(acts[k] == rest[k - 1]);
            }
        }
    }
}

/// A redraw request that arrives before the surface is ready is dropped:
/// nothing is drawn, nothing fails and the state does not change.
pub proof fn lemma_redraw_needs_ready<F>(s: Lifecycle<F>)
    requires
        s.wf(),
        !(s.phase is Ready),
    ensures
        step(s, Event::RedrawRequested) == (s, Action::<F>::Nothing),
{
}

/// Configuring twice for an unchanged size and render context yields the
/// same configuration, and the second time changes nothing.
pub proof fn lemma_configure_idempotent<F>(s: Lifecycle<F>, size: Size)
    requires
        s.wf(),
        s.phase is Ready,
    ensures
        ({
            let first = step(s, Event::Resized(size));
            let second = step(first.0, Event::Resized(size));
            &&& first.1 == Action::ConfigureAndRedraw(config_of(s.context->0, size))
            &&& second.1 == first.1
            &&& second.0 == first.0
        }),
        step(s, Event::Resumed) == (s, Action::ConfigureAndRedraw(config_of(s.context->0, s.surface->0))),
{
}

/// The actions before position `k` include a surface binding.
pub open spec fn bound_before<F>(acts: Seq<Action<F>>, k: int) -> bool {
    exists|i: int| 0 <= i < k && #[trigger] acts[i] is BindSurface
}

/// The actions before position `k` include a render context build.
pub open spec fn built_before<F>(acts: Seq<Action<F>>, k: int) -> bool {
    exists|i: int| 0 <= i < k && #[trigger] acts[i] is BuildContext
}

/// Every action that needs a surface binding comes after one is made, and
/// every action that needs a render context comes after one is built.
pub open spec fn made_before_use<F>(acts: Seq<Action<F>>) -> bool {
    forall|k: int| 0 <= k < acts.len() ==> {
        &&& uses_surface(#[trigger] acts[k]) ==> bound_before(acts, k)
        &&& uses_context(acts[k]) ==> built_before(acts, k)
    }
}

proof fn lemma_fresh_handles<F>(s: Lifecycle<F>, events: Seq<Event<F>>, bound: bool, built: bool)
    requires
        s.wf(),
        (s.phase is Binding || s.surface is Some) ==> bound,
        (s.context is Some || s.pending is Some) ==> built,
    ensures
        forall|k: int| 0 <= k < run(s, events).1.len() ==> {
            let a = #[trigger] run(s, events).1[k];
            &&& uses_surface(a) ==> bound || bound_before(run(s, events).1, k)
            &&& uses_context(a) ==> built || built_before(run(s, events).1, k)
        },
    decreases events.len(),
{
    if events.len() > 0 {
        let first = step(s, events[0]);
        let a0 = first.1;
        lemma_step_wf(s, events[0]);
        let bound1 = bound || a0 is BindSurface;
        let built1 = built || a0 is BuildContext;
        lemma_fresh_handles(first.0, events.drop_first(), bound1, built1);
        let acts = run(s, events).1;
        let rest = run(first.0, events.drop_first()).1;
        assert(acts == seq![a0] + rest);
        assert forall|k: int| 0 <= k < acts.len() implies {
            let a = #[trigger] acts[k];
            &&& uses_surface(a) ==> bound || bound_before(acts, k)
            &&& uses_context(a) ==> built || built_before(acts, k)
        } by {
            if k > 0 {
                assert(acts[k] == rest[k - 1]);
                if uses_surface(acts[k]) && !bound {
                    if a0 is BindSurface {
                        assert(acts[0] is BindSurface);
                    } else {
                        let i = choose|i: int| 0 <= i < k - 1 && #[trigger] rest[i] is BindSurface;
                        assert(acts[i + 1] == rest[i]);
                    }
                }
                if uses_context(acts[k]) && !built {
                    if a0 is BuildContext {
                        assert(acts[0] is BuildContext);
                    } else {
                        let i = choose|i: int| 0 <= i < k - 1 && #[trigger] rest[i] is BuildContext;
                        assert(acts[i + 1] == rest[i]);
                    }
                }
            }
        }
    }
}

/// None of the events is a resume.
pub open spec fn no_resume<F>(events: Seq<Event<F>>) -> bool {
    forall|i: int| 0 <= i < events.len() ==> !(#[trigger] events[i] is Resumed)
}

/// Without a window (before the first resume, or after a suspend) the
/// lifecycle becomes ready only through a resume: until one arrives it is
/// never ready and never draws.
pub proof fn lemma_ready_only_through_resume<F>(s: Lifecycle<F>, events: Seq<Event<F>>)
    requires
        s.wf(),
        s.phase is Uninitialized || s.phase is Suspended,
        no_resume(events),
    ensures
        !(run(s, events).0.phase is Ready),
        forall|k: int| 0 <= k < run(s, events).1.len()
            ==> !(#[trigger] run(s, events).1[k] is RenderFrame),
{
    lemma_windowless_stays(s, events);
}

proof fn lemma_windowless_stays<F>(s: Lifecycle<F>, events: Seq<Event<F>>)
    requires
        s.wf(),
        s.phase is Uninitialized || s.phase is Suspended || s.is_terminal(),
        no_resume(events),
    ensures
        !(run(s, events).0.phase is Ready),
        forall|k: int| 0 <= k < run(s, events).1.len()
            ==> !(#[trigger] run(s, events).1[k] is RenderFrame),
    decreases events.len(),
{
    if events.len() > 0 {
        let first = step(s, events[0]);
        assert(!(events[0] is Resumed));
        let rest_events = events.drop_first();
        assert forall|i: int| 0 <= i < rest_events.len() implies !(
        #[trigger] rest_events[i] is Resumed) by {
            assert(rest_events[i] == events[i + 1]);
        }
        lemma_windowless_stays(first.0, rest_events);
        let acts = run(s, events).1;
        let rest = run(first.0, rest_events).1;
        assert(acts == seq![first.1] + rest);
        assert forall|k: int| 0 <= k < acts.len() implies !(#[trigger] acts[k] is RenderFrame) by {
            if k > 0 {
                assert(acts[k] == rest[k - 1]);
            }
        }
    }
}

/// A suspend releases everything tied to the window, and nothing made
/// before it is used afterwards: the next resume binds a new surface, and
/// from then on every action that needs a surface comes after a new surface
/// binding and every action that needs a render context comes after a new
/// render context build.
pub proof fn lemma_suspend_tears_down<F>(s: Lifecycle<F>, events: Seq<Event<F>>)
    requires
        s.wf(),
        !s.is_terminal(),
    ensures
        step(s, Event::Suspended) == (Lifecycle::<F>::bare(Phase::Suspended), Action::<F>::ReleaseAll),
        step(Lifecycle::<F>::bare(Phase::Suspended), Event::Resumed) == (
            Lifecycle::<F>::bare(Phase::Binding), Action::<F>::BindSurface),
        made_before_use(run(Lifecycle::<F>::bare(Phase::Suspended), events).1),
{
    lemma_fresh_handles(Lifecycle::<F>::bare(Phase::Suspended), events, false, false);
}

} // verus!
