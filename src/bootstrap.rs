//! The embedding lifecycle as a state machine.
//!
//! The machine decides; the host performs. The host asks for the
//! [`Action`] to carry out next, performs it against the runtime, and reports
//! how it went as an [`Outcome`]. The machine never calls into the runtime
//! itself, so its decisions are verified for every behaviour of the runtime.
use crate::plan::LaunchPlan;
use vstd::prelude::*;

verus! {

/// The step at which a launch failed. Every failure is fatal.
#[derive(Clone, Copy, Debug, PartialEq, Eq, Structural)]
pub enum BootFailure {
    RuntimeCreation,
    ThreadAttachment,
    ContextClassLoader,
    ArgumentMarshalling,
    EntryPointDispatch,
    PendingErrorCheck,
    PendingErrorDispatch,
    PendingErrorClear,
}

/// Where a launch stands.
#[derive(Clone, Copy, Debug, PartialEq, Eq, Structural)]
pub enum Phase {
    /// No runtime exists yet.
    Uninitialized,
    /// The runtime was created.
    Initialized,
    /// The thread is attached and the context class loader is still to be set.
    ThreadAttached,
    /// The thread is attached and its context class loader is as wanted.
    ContextReady,
    /// The argument array was built.
    ArgumentsReady,
    /// The entry point returned, normally or with an uncaught error.
    Invoked,
    /// The check found an uncaught error.
    ErrorPending,
    /// The uncaught error went to the thread's handler and is still pending.
    ErrorDispatched,
    /// The entry point returned and nothing was pending.
    Completed,
    /// The uncaught error was dispatched and cleared.
    ExceptionRecovered,
    Failed(BootFailure),
}

/// What the host is to do next.
#[derive(Clone, Copy, Debug, PartialEq, Eq, Structural)]
pub enum Action {
    /// Load the runtime library and create the runtime with the plan's options.
    CreateRuntime,
    /// Attach the calling thread to the runtime.
    AttachThread,
    /// Make the entry class's loader the thread's context class loader.
    SetContextClassLoader,
    /// Build the runtime's string array from the plan's arguments.
    MarshalArguments,
    /// Call the entry point with the argument array.
    InvokeEntryPoint,
    /// Ask the runtime whether an uncaught error is pending.
    CheckPendingError,
    /// Hand the pending error to the current thread's uncaught-error handler.
    DispatchPendingError,
    /// Clear the pending error.
    ClearPendingError,
    /// The launch is over; return normally.
    Finish,
    /// Stop the process with a diagnostic for this failure.
    Abort(BootFailure),
}

/// How the host's last action went.
#[derive(Clone, Copy, Debug, PartialEq, Eq, Structural)]
pub enum Outcome {
    /// The action succeeded; for a check, nothing is pending.
    Done,
    /// The action failed.
    Failed,
    /// The action returned with an uncaught error pending in the runtime.
    ErrorPending,
}

/// The state of one launch.
#[derive(Clone, Copy, Debug, PartialEq, Eq, Structural)]
pub struct Bootstrapper {
    pub phase: Phase,
    /// Whether the entry class's loader becomes the context class loader.
    pub fix_context_loader: bool,
}

pub open spec fn initial(fix_context_loader: bool) -> Bootstrapper {
    Bootstrapper { phase: Phase::Uninitialized, fix_context_loader }
}

/// Phases in which the launch is over.
pub open spec fn is_terminal(p: Phase) -> bool {
    p is Completed || p is ExceptionRecovered || p is Failed
}

pub open spec fn action_of(s: Bootstrapper) -> Action {
    match s.phase {
        Phase::Uninitialized => Action::CreateRuntime,
        Phase::Initialized => Action::AttachThread,
        Phase::ThreadAttached => Action::SetContextClassLoader,
        Phase::ContextReady => Action::MarshalArguments,
        Phase::ArgumentsReady => Action::InvokeEntryPoint,
        Phase::Invoked => Action::CheckPendingError,
        Phase::ErrorPending => Action::DispatchPendingError,
        Phase::ErrorDispatched => Action::ClearPendingError,
        Phase::Completed => Action::Finish,
        Phase::ExceptionRecovered => Action::Finish,
        Phase::Failed(f) => Action::Abort(f),
    }
}

/// Success moves one step on, and the context-loader step is skipped when
/// not asked for. The entry point counts as invoked whether it returned
/// normally or with an error pending; the check then decides between
/// completion and recovery. Any other failure ends the launch. Terminal
/// phases stay as they are.
pub open spec fn next_phase(s: Bootstrapper, o: Outcome) -> Phase {
    let ok = o == Outcome::Done;
    match s.phase {
        Phase::Uninitialized => if ok {
            Phase::Initialized
        } else {
            Phase::Failed(BootFailure::RuntimeCreation)
        },
        Phase::Initialized => if !ok {
            Phase::Failed(BootFailure::ThreadAttachment)
        } else if s.fix_context_loader {
            Phase::ThreadAttached
        } else {
            Phase::ContextReady
        },
        Phase::ThreadAttached => if ok {
            Phase::ContextReady
        } else {
            Phase::Failed(BootFailure::ContextClassLoader)
        },
        Phase::ContextReady => if ok {
            Phase::ArgumentsReady
        } else {
            Phase::Failed(BootFailure::ArgumentMarshalling)
        },
        Phase::ArgumentsReady => if o == Outcome::Failed {
            Phase::Failed(BootFailure::EntryPointDispatch)
        } else {
            Phase::Invoked
        },
        Phase::Invoked => match o {
            Outcome::Done => Phase::Completed,
            Outcome::ErrorPending => Phase::ErrorPending,
            Outcome::Failed => Phase::Failed(BootFailure::PendingErrorCheck),
        },
        Phase::ErrorPending => if ok {
            Phase::ErrorDispatched
        } else {
            Phase::Failed(BootFailure::PendingErrorDispatch)
        },
        Phase::ErrorDispatched => if ok {
            Phase::ExceptionRecovered
        } else {
            Phase::Failed(BootFailure::PendingErrorClear)
        },
        _ => s.phase,
    }
}

pub open spec fn after(s: Bootstrapper, o: Outcome) -> Bootstrapper {
    Bootstrapper { phase: next_phase(s, o), ..s }
}

impl Bootstrapper {
    pub fn new(fix_context_loader: bool) -> (r: Bootstrapper)
        ensures
            r == initial(fix_context_loader),
    {
        Bootstrapper { phase: Phase::Uninitialized, fix_context_loader }
    }

    /// A launch of `plan`, which sets the context class loader when the plan
    /// asks for it.
    pub fn for_plan(plan: &LaunchPlan) -> (r: Bootstrapper)
        ensures
            r == initial(plan.use_main_as_context_class_loader),
    {
        Bootstrapper::new(plan.use_main_as_context_class_loader)
    }

    pub fn next_action(&self) -> (a: Action)
        ensures
            a == action_of(*self),
    {
        match self.phase {
            Phase::Uninitialized => Action::CreateRuntime,
            Phase::Initialized => Action::AttachThread,
            Phase::ThreadAttached => Action::SetContextClassLoader,
            Phase::ContextReady => Action::MarshalArguments,
            Phase::ArgumentsReady => Action::InvokeEntryPoint,
            Phase::Invoked => Action::CheckPendingError,
            Phase::ErrorPending => Action::DispatchPendingError,
            Phase::ErrorDispatched => Action::ClearPendingError,
            Phase::Completed => Action::Finish,
            Phase::ExceptionRecovered => Action::Finish,
            Phase::Failed(f) => Action::Abort(f),
        }
    }

    /// Records how the last action went.
    pub fn advance(&mut self, o: Outcome)
        ensures
            *final(self) == after(*old(self), o),
    {
        let ok = match o {
            Outcome::Done => true,
            _ => false,
        };
        let next = match self.phase {
            Phase::Uninitialized => if ok {
                Phase::Initialized
            } else {
                Phase::Failed(BootFailure::RuntimeCreation)
            },
            Phase::Initialized => if !ok {
                Phase::Failed(BootFailure::ThreadAttachment)
            } else if self.fix_context_loader {
                Phase::ThreadAttached
            } else {
                Phase::ContextReady
            },
            Phase::ThreadAttached => if ok {
                Phase::ContextReady
            } else {
                Phase::Failed(BootFailure::ContextClassLoader)
            },
            Phase::ContextReady => if ok {
                Phase::ArgumentsReady
            } else {
                Phase::Failed(BootFailure::ArgumentMarshalling)
            },
            Phase::ArgumentsReady => match o {
                Outcome::Failed => Phase::Failed(BootFailure::EntryPointDispatch),
                _ => Phase::Invoked,
            },
            Phase::Invoked => match o {
                Outcome::Done => Phase::Completed,
                Outcome::ErrorPending => Phase::ErrorPending,
                Outcome::Failed => Phase::Failed(BootFailure::PendingErrorCheck),
            },
            Phase::ErrorPending => if ok {
                Phase::ErrorDispatched
            } else {
                Phase::Failed(BootFailure::PendingErrorDispatch)
            },
            Phase::ErrorDispatched => if ok {
                Phase::ExceptionRecovered
            } else {
                Phase::Failed(BootFailure::PendingErrorClear)
            },
            p => p,
        };
        self.phase = next;
    }

    pub fn is_finished(&self) -> (r: bool)
        ensures
            r == is_terminal(self.phase),
    {
        match self.phase {
            Phase::Completed | Phase::ExceptionRecovered | Phase::Failed(_) => true,
            _ => false,
        }
    }
}

/// The actions a launch that starts in `s` asks for while the host reports
/// `outs`, one action per outcome.
pub open spec fn actions(s: Bootstrapper, outs: Seq<Outcome>) -> Seq<Action>
    decreases outs.len(),
{
    if outs.len() == 0 {
        seq![]
    } else {
        seq![action_of(s)] + actions(after(s, outs[0]), outs.drop_first())
    }
}

/// The state reached from `s` after the outcomes `outs`.
pub open spec fn run(s: Bootstrapper, outs: Seq<Outcome>) -> Bootstrapper
    decreases outs.len(),
{
    if outs.len() == 0 {
        s
    } else {
        run(after(s, outs[0]), outs.drop_first())
    }
}

/// How often `a` occurs in `acts`.
pub open spec fn count_of(acts: Seq<Action>, a: Action) -> nat
    decreases acts.len(),
{
    if acts.len() == 0 {
        0
    } else {
        (if acts[0] == a {
            1nat
        } else {
            0nat
        }) + count_of(acts.drop_first(), a)
    }
}

/// The order in which phases are passed; every step out of a phase that is
/// not terminal climbs.
pub open spec fn rank(p: Phase) -> nat {
    match p {
        Phase::Uninitialized => 0,
        Phase::Initialized => 1,
        Phase::ThreadAttached => 2,
        Phase::ContextReady => 3,
        Phase::ArgumentsReady => 4,
        Phase::Invoked => 5,
        Phase::ErrorPending => 6,
        Phase::ErrorDispatched => 7,
        Phase::Completed => 8,
        Phase::ExceptionRecovered => 8,
        Phase::Failed(_) => 9,
    }
}

proof fn lemma_actions_unfold(s: Bootstrapper, outs: Seq<Outcome>, a: Action)
    requires
        outs.len() > 0,
    ensures
        count_of(actions(s, outs), a) == (if action_of(s) == a {
            1nat
        } else {
            0nat
        }) + count_of(actions(after(s, outs[0]), outs.drop_first()), a),
{
    let rest = actions(after(s, outs[0]), outs.drop_first());
    assert((seq![action_of(s)] + rest).drop_first() =~= rest);
}

proof fn lemma_terminal_stays(s: Bootstrapper, outs: Seq<Outcome>)
    requires
        is_terminal(s.phase),
    ensures
        run(s, outs) == s,
        forall|i: int| 0 <= i < actions(s, outs).len() ==> #[trigger] actions(s, outs)[i] == action_of(s),
        actions(s, outs).len() == outs.len(),
    decreases outs.len(),
{
    if outs.len() > 0 {
        lemma_terminal_stays(after(s, outs[0]), outs.drop_first());
        let rest = actions(after(s, outs[0]), outs.drop_first());
        assert forall|i: int| 0 <= i < actions(s, outs).len() implies #[trigger] actions(s, outs)[i]
            == action_of(s) by {
            if i > 0 {
                assert(actions(s, outs)[i] == rest[i - 1]);
            }
        }
    }
}

/// An action that belongs to the phase `p` alone is asked for at most once,
/// and not at all once the launch has passed `p`.
proof fn lemma_phase_action_at_most_once(s: Bootstrapper, outs: Seq<Outcome>, p: Phase)
    requires
        !is_terminal(p),
    ensures
        count_of(actions(s, outs), action_of(Bootstrapper { phase: p, ..s })) <= (if rank(s.phase)
            <= rank(p) {
            1nat
        } else {
            0nat
        }),
    decreases outs.len(),
{
    let a = action_of(Bootstrapper { phase: p, ..s });
    if outs.len() > 0 {
        let t = after(s, outs[0]);
        lemma_actions_unfold(s, outs, a);
        lemma_phase_action_at_most_once(t, outs.drop_first(), p);
    }
}

proof fn lemma_passes_through(s: Bootstrapper, outs: Seq<Outcome>, p: Phase)
    requires
        p == Phase::Invoked || p == Phase::ErrorPending || p == Phase::ErrorDispatched,
        rank(s.phase) <= rank(p),
        run(s, outs).phase == Phase::ExceptionRecovered,
    ensures
        count_of(actions(s, outs), action_of(Bootstrapper { phase: p, ..s })) >= 1,
    decreases outs.len(),
{
    let a = action_of(Bootstrapper { phase: p, ..s });
    if outs.len() == 0 {
    } else {
        let t = after(s, outs[0]);
        lemma_actions_unfold(s, outs, a);
        if s.phase != p {
            if is_terminal(t.phase) {
                lemma_terminal_stays(t, outs.drop_first());
            } else {
                lemma_passes_through(t, outs.drop_first(), p);
            }
        }
    }
}

/// In one launch the runtime is asked at most once whether an uncaught error
/// is pending, and a pending error is dispatched at most once and cleared at
/// most once, whatever the runtime reports.
pub proof fn lemma_pending_error_steps_at_most_once(fix_context_loader: bool, outs: Seq<Outcome>)
    ensures
        count_of(actions(initial(fix_context_loader), outs), Action::CheckPendingError) <= 1,
        count_of(actions(initial(fix_context_loader), outs), Action::DispatchPendingError) <= 1,
        count_of(actions(initial(fix_context_loader), outs), Action::ClearPendingError) <= 1,
{
    let s = initial(fix_context_loader);
    lemma_phase_action_at_most_once(s, outs, Phase::Invoked);
    lemma_phase_action_at_most_once(s, outs, Phase::ErrorPending);
    lemma_phase_action_at_most_once(s, outs, Phase::ErrorDispatched);
}

/// A launch that ends recovered from an uncaught error checked for it once,
/// dispatched it to the thread's handler exactly once and cleared it exactly
/// once; from then on it only finishes, and asks nothing more of the runtime.
pub proof fn lemma_recovery_dispatches_once(
    fix_context_loader: bool,
    outs: Seq<Outcome>,
    more: Seq<Outcome>,
)
    requires
        run(initial(fix_context_loader), outs).phase == Phase::ExceptionRecovered,
    ensures
        count_of(actions(initial(fix_context_loader), outs), Action::CheckPendingError) == 1,
        count_of(actions(initial(fix_context_loader), outs), Action::DispatchPendingError) == 1,
        count_of(actions(initial(fix_context_loader), outs), Action::ClearPendingError) == 1,
        forall|i: int|
            0 <= i < more.len() ==> #[trigger] actions(
                run(initial(fix_context_loader), outs),
                more,
            )[i] == Action::Finish,
{
    let s = initial(fix_context_loader);
    lemma_pending_error_steps_at_most_once(fix_context_loader, outs);
    lemma_passes_through(s, outs, Phase::Invoked);
    lemma_passes_through(s, outs, Phase::ErrorPending);
    lemma_passes_through(s, outs, Phase::ErrorDispatched);
    lemma_terminal_stays(run(s, outs), more);
}

} // verus!
