//! The order in which the application acquires and releases its resources.
//!
//! The host owns the window and the instance; this module decides what the
//! host does next. The application is always in one [`Stage`]. Each stage has
//! one pending [`Action`]; the host performs it and reports the [`Outcome`],
//! which leads to the next stage. The surface is acquired before the context
//! and released after it, and every path ends with nothing held.

use vstd::prelude::*;
use crate::error::FailedStep;

verus! {

/// Where the application stands.
#[derive(Clone, Copy, Debug, PartialEq, Eq, Structural)]
pub enum Stage {
    /// Nothing is held; the window is being created.
    SurfacePending,
    /// The window is held; the instance is being created.
    ContextPending,
    /// Both are held: construction succeeded and the event loop has the
    /// thread.
    Running,
    /// The event loop has returned; the instance is being destroyed.
    DestroyingContext,
    /// The instance is gone; the window is being released.
    ReleasingSurface,
    /// Torn down after a run. Terminal.
    Closed,
    /// Instance creation failed; the window is being released.
    Unwinding,
    /// Startup failed at the step named. Terminal.
    Failed(FailedStep),
}

/// What the host is to do.
#[derive(Clone, Copy, Debug, PartialEq, Eq, Structural)]
pub enum Action {
    CreateSurface,
    CreateInstance,
    RunLoop,
    DestroyInstance,
    ReleaseSurface,
    /// Leave with success.
    Exit,
    /// Leave with the diagnostic of the step named, and without success.
    Abort(FailedStep),
}

/// How the action that was pending went.
#[derive(Clone, Copy, Debug, PartialEq, Eq, Structural)]
pub enum Outcome {
    Succeeded,
    Failed,
}

impl Stage {
    /// The stage a new application starts in.
    pub open spec fn initial() -> Stage {
        Stage::SurfacePending
    }

    /// The action the host performs in this stage.
    pub open spec fn pending(self) -> Action {
        match self {
            Stage::SurfacePending => Action::CreateSurface,
            Stage::ContextPending => Action::CreateInstance,
            Stage::Running => Action::RunLoop,
            Stage::DestroyingContext => Action::DestroyInstance,
            Stage::ReleasingSurface => Action::ReleaseSurface,
            Stage::Closed => Action::Exit,
            Stage::Unwinding => Action::ReleaseSurface,
            Stage::Failed(step) => Action::Abort(step),
        }
    }

    /// The stage that follows once the pending action ended with `outcome`.
    ///
    /// Only the two creations can fail. However the event loop returns,
    /// teardown follows; a release counts as done whatever is reported.
    pub open spec fn next(self, outcome: Outcome) -> Stage {
        match self {
            Stage::SurfacePending => match outcome {
                Outcome::Succeeded => Stage::ContextPending,
                Outcome::Failed => Stage::Failed(FailedStep::WindowCreation),
            },
            Stage::ContextPending => match outcome {
                Outcome::Succeeded => Stage::Running,
                Outcome::Failed => Stage::Unwinding,
            },
            Stage::Running => Stage::DestroyingContext,
            Stage::DestroyingContext => Stage::ReleasingSurface,
            Stage::ReleasingSurface => Stage::Closed,
            Stage::Closed => Stage::Closed,
            Stage::Unwinding => Stage::Failed(FailedStep::InstanceCreation),
            Stage::Failed(step) => Stage::Failed(step),
        }
    }

    /// The window is held in this stage.
    pub open spec fn holds_surface(self) -> bool {
        self == Stage::ContextPending || self == Stage::Running || self == Stage::DestroyingContext
            || self == Stage::ReleasingSurface || self == Stage::Unwinding
    }

    /// The instance is held in this stage.
    pub open spec fn holds_context(self) -> bool {
        self == Stage::Running || self == Stage::DestroyingContext
    }

    /// The number of resources held in this stage.
    pub open spec fn resources(self) -> nat {
        (if self.holds_surface() { 1nat } else { 0nat }) + (if self.holds_context() { 1nat } else { 0nat })
    }

    /// No outcome leads out of this stage.
    pub open spec fn terminal(self) -> bool {
        self == Stage::Closed || self is Failed
    }

    /// The stage after the outcomes in `trace` were reported one by one,
    /// starting in this stage.
    pub open spec fn after(self, trace: Seq<Outcome>) -> Stage
        decreases trace.len(),
    {
        if trace.len() == 0 {
            self
        } else {
            self.after(trace.drop_last()).next(trace.last())
        }
    }

    /// The action the host performs in this stage.
    pub fn pending_action(self) -> (action: Action)
        ensures
            action == self.pending(),
    {
        match self {
            Stage::SurfacePending => Action::CreateSurface,
            Stage::ContextPending => Action::CreateInstance,
            Stage::Running => Action::RunLoop,
            Stage::DestroyingContext => Action::DestroyInstance,
            Stage::ReleasingSurface => Action::ReleaseSurface,
            Stage::Closed => Action::Exit,
            Stage::Unwinding => Action::ReleaseSurface,
            Stage::Failed(step) => Action::Abort(step),
        }
    }

    /// The stage that follows once the pending action ended with `outcome`.
    pub fn advance(self, outcome: Outcome) -> (stage: Stage)
        ensures
            stage == self.next(outcome),
    {
        match self {
            Stage::SurfacePending => match outcome {
                Outcome::Succeeded => Stage::ContextPending,
                Outcome::Failed => Stage::Failed(FailedStep::WindowCreation),
            },
            Stage::ContextPending => match outcome {
                Outcome::Succeeded => Stage::Running,
                Outcome::Failed => Stage::Unwinding,
            },
            Stage::Running => Stage::DestroyingContext,
            Stage::DestroyingContext => Stage::ReleasingSurface,
            Stage::ReleasingSurface => Stage::Closed,
            Stage::Closed => Stage::Closed,
            Stage::Unwinding => Stage::Failed(FailedStep::InstanceCreation),
            Stage::Failed(step) => Stage::Failed(step),
        }
    }

    /// Whether the window is held in this stage.
    pub fn is_holding_surface(self) -> (held: bool)
        ensures
            held == self.holds_surface(),
    {
        match self {
            Stage::ContextPending | Stage::Running | Stage::DestroyingContext | Stage::ReleasingSurface | Stage::Unwinding => true,
            _ => false,
        }
    }

    /// Whether the instance is held in this stage.
    pub fn is_holding_context(self) -> (held: bool)
        ensures
            held == self.holds_context(),
    {
        match self {
            Stage::Running | Stage::DestroyingContext => true,
            _ => false,
        }
    }

    /// Whether no outcome leads out of this stage.
    pub fn is_terminal(self) -> (terminal: bool)
        ensures
            terminal == self.terminal(),
    {
        match self {
            Stage::Closed | Stage::Failed(_) => true,
            _ => false,
        }
    }
}

/// The action the host performs at step `at` of `trace`: the one pending once
/// the outcomes before `at` were reported.
pub open spec fn performed(start: Stage, trace: Seq<Outcome>, at: int) -> Action
    recommends
        0 <= at < trace.len(),
{
    start.after(trace.take(at)).pending()
}

/// How often the host performed `action` along `trace`.
pub open spec fn times_performed(start: Stage, trace: Seq<Outcome>, action: Action) -> nat
    decreases trace.len(),
{
    if trace.len() == 0 {
        0
    } else {
        let before = trace.drop_last();
        times_performed(start, before, action) + if start.after(before).pending() == action {
            1nat
        } else {
            0nat
        }
    }
}

/// How often `action` was performed and reported as succeeded along `trace`.
pub open spec fn times_succeeded(start: Stage, trace: Seq<Outcome>, action: Action) -> nat
    decreases trace.len(),
{
    if trace.len() == 0 {
        0
    } else {
        let before = trace.drop_last();
        times_succeeded(start, before, action) + if start.after(before).pending() == action
            && trace.last() == Outcome::Succeeded {
            1nat
        } else {
            0nat
        }
    }
}

/// In every stage the instance is held only while the window is: the window
/// is there before the instance is asked for, is still there when the instance
/// is destroyed, and is released only once the instance is gone.
pub proof fn lemma_context_within_surface(stage: Stage)
    ensures
        stage.holds_context() ==> stage.holds_surface(),
        stage.pending() == Action::CreateSurface ==> stage.resources() == 0,
        stage.pending() == Action::CreateInstance ==> stage.holds_surface() && !stage.holds_context(),
        stage.pending() == Action::RunLoop ==> stage.holds_surface() && stage.holds_context(),
        stage.pending() == Action::DestroyInstance ==> stage.holds_surface() && stage.holds_context(),
        stage.pending() == Action::ReleaseSurface ==> stage.holds_surface() && !stage.holds_context(),
{
}

/// A terminal stage holds nothing and is never left; the host leaves the
/// process in a terminal stage and in no other.
pub proof fn lemma_terminal_holds_nothing(stage: Stage, outcome: Outcome)
    ensures
        stage.terminal() ==> stage.resources() == 0 && stage.next(outcome) == stage,
        stage.terminal() <==> stage.pending() == Action::Exit || stage.pending() is Abort,
        stage.pending() == Action::Exit <==> stage == Stage::Closed,
{
}

/// One more outcome at the end of a trace is one more step of the machine.
pub proof fn lemma_after_push(start: Stage, trace: Seq<Outcome>, outcome: Outcome)
    ensures
        start.after(trace.push(outcome)) == start.after(trace).next(outcome),
{
    assert(trace.push(outcome).drop_last() =~= trace);
}

/// Along every trace, each resource is released as often as it was acquired,
/// but for what is held at the start and at the end.
pub proof fn lemma_resources_balance(start: Stage, trace: Seq<Outcome>)
    ensures
        times_succeeded(start, trace, Action::CreateSurface) + (if start.holds_surface() {
            1nat
        } else {
            0nat
        }) == times_performed(start, trace, Action::ReleaseSurface) + (if start.after(
            trace,
        ).holds_surface() {
            1nat
        } else {
            0nat
        }),
        times_succeeded(start, trace, Action::CreateInstance) + (if start.holds_context() {
            1nat
        } else {
            0nat
        }) == times_performed(start, trace, Action::DestroyInstance) + (if start.after(
            trace,
        ).holds_context() {
            1nat
        } else {
            0nat
        }),
    decreases trace.len(),
{
    if trace.len() > 0 {
        lemma_resources_balance(start, trace.drop_last());
    }
}

/// Startup is all or nothing: an application that ends in failure holds
/// nothing, and released every window it had acquired before the failure was
/// reported. The same holds of one that ends closed.
pub proof fn lemma_construction_all_or_nothing(trace: Seq<Outcome>)
    requires
        Stage::initial().after(trace).terminal(),
    ensures
        Stage::initial().after(trace).resources() == 0,
        times_performed(Stage::initial(), trace, Action::ReleaseSurface) == times_succeeded(
            Stage::initial(),
            trace,
            Action::CreateSurface,
        ),
        times_performed(Stage::initial(), trace, Action::DestroyInstance) == times_succeeded(
            Stage::initial(),
            trace,
            Action::CreateInstance,
        ),
{
    lemma_resources_balance(Stage::initial(), trace);
}

/// If the instance cannot be created once the window exists, the window is
/// released first and the failure reported after that.
pub proof fn lemma_failed_context_releases_surface(surface: Outcome, release: Outcome)
    ensures
        Stage::initial().next(Outcome::Succeeded).next(Outcome::Failed).pending()
            == Action::ReleaseSurface,
        Stage::initial().next(Outcome::Succeeded).next(Outcome::Failed).next(release).pending()
            == Action::Abort(FailedStep::InstanceCreation),
        Stage::initial().next(Outcome::Failed).pending() == Action::Abort(FailedStep::WindowCreation),
        Stage::initial().next(Outcome::Failed).resources() == 0,
{
}

/// No trace creates the instance with success more than once, and none
/// destroys it more than once.
pub proof fn lemma_at_most_one_context(start: Stage, trace: Seq<Outcome>)
    ensures
        times_succeeded(start, trace, Action::CreateInstance) <= 1,
        times_performed(start, trace, Action::DestroyInstance) <= 1,
        start.after(trace) == Stage::SurfacePending || start.after(trace) == Stage::ContextPending
            ==> times_succeeded(start, trace, Action::CreateInstance) == 0,
        start.after(trace) == Stage::SurfacePending || start.after(trace) == Stage::ContextPending
            || start.after(trace) == Stage::Running || start.after(trace) == Stage::DestroyingContext
            ==> times_performed(start, trace, Action::DestroyInstance) == 0,
    decreases trace.len(),
{
    if trace.len() > 0 {
        lemma_at_most_one_context(start, trace.drop_last());
    }
}

/// The instance of a successfully constructed application is destroyed
/// exactly once by the time the application has ended, and not at all where
/// construction did not succeed.
pub proof fn lemma_destroyed_exactly_once(trace: Seq<Outcome>)
    requires
        Stage::initial().after(trace).terminal(),
    ensures
        Stage::initial().after(trace) == Stage::Closed ==> times_performed(
            Stage::initial(),
            trace,
            Action::DestroyInstance,
        ) == 1,
        Stage::initial().after(trace) is Failed ==> times_performed(
            Stage::initial(),
            trace,
            Action::DestroyInstance,
        ) == 0,
        times_performed(Stage::initial(), trace, Action::DestroyInstance) == times_succeeded(
            Stage::initial(),
            trace,
            Action::CreateInstance,
        ),
{
    lemma_resources_balance(Stage::initial(), trace);
    lemma_at_most_one_context(Stage::initial(), trace);
    lemma_closed_was_running(trace);
}

/// An application is closed only after its instance was created, and fails
/// only without one or before one.
proof fn lemma_closed_was_running(trace: Seq<Outcome>)
    ensures
        Stage::initial().after(trace) == Stage::ReleasingSurface || Stage::initial().after(trace)
            == Stage::Closed ==> times_performed(Stage::initial(), trace, Action::DestroyInstance)
            == 1,
        Stage::initial().after(trace) == Stage::Unwinding || Stage::initial().after(trace) is Failed
            ==> times_performed(Stage::initial(), trace, Action::DestroyInstance) == 0,
        Stage::initial().after(trace) == Stage::SurfacePending || Stage::initial().after(trace)
            == Stage::ContextPending || Stage::initial().after(trace) == Stage::Running
            || Stage::initial().after(trace) == Stage::DestroyingContext ==> times_performed(
            Stage::initial(),
            trace,
            Action::DestroyInstance,
        ) == 0,
    decreases trace.len(),
{
    if trace.len() > 0 {
        lemma_closed_was_running(trace.drop_last());
    }
}

/// The instance is destroyed only after the event loop has returned: the step
/// at which the host destroys it follows directly on the step at which the
/// host ran the loop, and no step before that one destroys it.
pub proof fn lemma_destroy_follows_run(trace: Seq<Outcome>, at: int)
    requires
        0 <= at < trace.len(),
        performed(Stage::initial(), trace, at) == Action::DestroyInstance,
    ensures
        at > 0,
        performed(Stage::initial(), trace, at - 1) == Action::RunLoop,
        forall|earlier: int|
            0 <= earlier < at ==> #[trigger] performed(Stage::initial(), trace, earlier)
                != Action::DestroyInstance,
{
    let start = Stage::initial();
    if at > 0 {
        assert(trace.take(at).drop_last() =~= trace.take(at - 1));
    }
    assert forall|earlier: int| 0 <= earlier < at implies #[trigger] performed(
        start,
        trace,
        earlier,
    ) != Action::DestroyInstance by {
        if performed(start, trace, earlier) == Action::DestroyInstance {
            lemma_destroying_is_left_for_good(start, trace, earlier, at);
        }
    }
}

/// Once the host has destroyed the instance at one step, no later step
/// destroys it again.
proof fn lemma_destroying_is_left_for_good(start: Stage, trace: Seq<Outcome>, at: int, later: int)
    requires
        0 <= at < later <= trace.len(),
        performed(start, trace, at) == Action::DestroyInstance,
    ensures
        start.after(trace.take(later)) == Stage::ReleasingSurface || start.after(trace.take(later))
            == Stage::Closed,
        performed(start, trace, later) != Action::DestroyInstance,
    decreases later - at,
{
    assert(trace.take(later).drop_last() =~= trace.take(later - 1));
    if later - 1 > at {
        lemma_destroying_is_left_for_good(start, trace, at, later - 1);
    }
}

/// Every application ends: five reports after its start it is in a terminal
/// stage, whatever was reported.
pub proof fn lemma_ends_within_five_steps(trace: Seq<Outcome>)
    requires
        trace.len() >= 5,
    ensures
        Stage::initial().after(trace).terminal(),
    decreases trace.len(),
{
    let start = Stage::initial();
    if trace.len() == 5 {
        let t4 = trace.drop_last();
        let t3 = t4.drop_last();
        let t2 = t3.drop_last();
        let t1 = t2.drop_last();
        let t0 = t1.drop_last();
        assert(start.after(t0) == start);
        assert(start.after(t1) == start.after(t0).next(t1.last()));
        assert(start.after(t2) == start.after(t1).next(t2.last()));
        assert(start.after(t3) == start.after(t2).next(t3.last()));
        assert(start.after(t4) == start.after(t3).next(t4.last()));
    } else {
        lemma_ends_within_five_steps(trace.drop_last());
    }
}

} // verus!
