use jvm_launcher::bootstrap::{Action, BootFailure, Bootstrapper, Outcome, Phase};
use jvm_launcher::coordinator::{
    thread_mode, Coordinator, PrimaryAction, PrimaryEvent, ThreadMode,
};
use jvm_launcher::platform::Os;

/// Feeds `outcomes` to `b`, recording each action asked for before the outcome.
fn drive(b: &mut Bootstrapper, outcomes: &[Outcome]) -> Vec<Action> {
    let mut acts = Vec::new();
    for o in outcomes {
        acts.push(b.next_action());
        b.advance(*o);
    }
    acts
}

#[test]
fn normal_launch_completes() {
    let mut b = Bootstrapper::new(false);
    let acts = drive(&mut b, &[Outcome::Done; 5]);
    assert_eq!(
        acts,
        vec![
            Action::CreateRuntime,
            Action::AttachThread,
            Action::MarshalArguments,
            Action::InvokeEntryPoint,
            Action::CheckPendingError,
        ]
    );
    assert_eq!(b.phase, Phase::Completed);
    assert_eq!(b.next_action(), Action::Finish);
    assert!(b.is_finished());
}

#[test]
fn context_loader_step_only_when_requested() {
    let mut b = Bootstrapper::new(true);
    let acts = drive(&mut b, &[Outcome::Done; 3]);
    assert_eq!(
        acts,
        vec![Action::CreateRuntime, Action::AttachThread, Action::SetContextClassLoader]
    );
    assert_eq!(b.next_action(), Action::MarshalArguments);
}

#[test]
fn uncaught_error_dispatched_once_and_cleared() {
    let mut b = Bootstrapper::new(false);
    let acts = drive(
        &mut b,
        &[
            Outcome::Done,
            Outcome::Done,
            Outcome::Done,
            Outcome::ErrorPending,
            Outcome::ErrorPending,
            Outcome::Done,
            Outcome::Done,
        ],
    );
    assert_eq!(
        acts,
        vec![
            Action::CreateRuntime,
            Action::AttachThread,
            Action::MarshalArguments,
            Action::InvokeEntryPoint,
            Action::CheckPendingError,
            Action::DispatchPendingError,
            Action::ClearPendingError,
        ]
    );
    assert_eq!(b.phase, Phase::ExceptionRecovered);
    let later = drive(&mut b, &[Outcome::ErrorPending, Outcome::Done]);
    assert_eq!(later, vec![Action::Finish, Action::Finish]);
    let dispatches = acts
        .iter()
        .chain(later.iter())
        .filter(|a| **a == Action::DispatchPendingError)
        .count();
    assert_eq!(dispatches, 1);
}

#[test]
fn failures_are_fatal_at_each_step() {
    let cases: Vec<(Vec<Outcome>, bool, BootFailure)> = vec![
        (vec![Outcome::Failed], false, BootFailure::RuntimeCreation),
        (vec![Outcome::Done, Outcome::Failed], false, BootFailure::ThreadAttachment),
        (vec![Outcome::Done, Outcome::Done, Outcome::Failed], true, BootFailure::ContextClassLoader),
        (vec![Outcome::Done, Outcome::Done, Outcome::ErrorPending], false, BootFailure::ArgumentMarshalling),
        (vec![Outcome::Done; 3].into_iter().chain([Outcome::Failed]).collect(), false, BootFailure::EntryPointDispatch),
        (vec![Outcome::Done; 4].into_iter().chain([Outcome::Failed]).collect(), false, BootFailure::PendingErrorCheck),
        (
            vec![Outcome::Done; 4].into_iter().chain([Outcome::ErrorPending, Outcome::Failed]).collect(),
            false,
            BootFailure::PendingErrorDispatch,
        ),
        (
            vec![Outcome::Done; 4]
                .into_iter()
                .chain([Outcome::ErrorPending, Outcome::Done, Outcome::Failed])
                .collect(),
            false,
            BootFailure::PendingErrorClear,
        ),
    ];
    for (outs, fix, failure) in cases {
        let mut b = Bootstrapper::new(fix);
        drive(&mut b, &outs);
        assert_eq!(b.phase, Phase::Failed(failure));
        assert_eq!(b.next_action(), Action::Abort(failure));
        assert!(b.is_finished());
        b.advance(Outcome::Done);
        assert_eq!(b.phase, Phase::Failed(failure));
    }
}

#[test]
fn entry_point_returning_with_error_still_counts_as_invoked() {
    let mut b = Bootstrapper::new(false);
    drive(&mut b, &[Outcome::Done, Outcome::Done, Outcome::Done, Outcome::ErrorPending]);
    assert_eq!(b.phase, Phase::Invoked);
    assert_eq!(b.next_action(), Action::CheckPendingError);
}

#[test]
fn constrained_os_runs_launch_on_its_own_thread() {
    assert_eq!(thread_mode(Os::MacOs, false), ThreadMode::BootstrapThread);
    assert_eq!(thread_mode(Os::MacOs, true), ThreadMode::FirstThread);
    assert_eq!(thread_mode(Os::Linux, false), ThreadMode::FirstThread);
    assert_eq!(thread_mode(Os::Windows, false), ThreadMode::FirstThread);
}

#[test]
fn first_thread_waits_until_bootstrap_thread_ends() {
    let mut c = Coordinator::new(ThreadMode::BootstrapThread);
    assert_eq!(c.next_action(), PrimaryAction::SpawnBootstrapThread);
    c.observe(PrimaryEvent::BootstrapThreadEnded);
    assert_eq!(c.next_action(), PrimaryAction::SpawnBootstrapThread);
    c.observe(PrimaryEvent::ThreadSpawned);
    assert_eq!(c.next_action(), PrimaryAction::WaitInRunLoop);
    c.observe(PrimaryEvent::BootstrapReturned);
    assert_eq!(c.next_action(), PrimaryAction::WaitInRunLoop);
    c.observe(PrimaryEvent::ThreadSpawned);
    assert_eq!(c.next_action(), PrimaryAction::WaitInRunLoop);
    c.observe(PrimaryEvent::BootstrapThreadEnded);
    assert_eq!(c.next_action(), PrimaryAction::Exit);
}

#[test]
fn first_thread_runs_launch_directly() {
    let mut c = Coordinator::new(ThreadMode::FirstThread);
    assert_eq!(c.next_action(), PrimaryAction::RunBootstrap);
    c.observe(PrimaryEvent::BootstrapReturned);
    assert_eq!(c.next_action(), PrimaryAction::Exit);
}
