//! Which thread runs the launch, and what the process's first thread does
//! meanwhile.
//!
//! Where the system wants a live event loop on the first thread and the
//! configuration does not ask to run there, the launch runs on a thread of
//! its own while the first thread waits in a run loop until that thread ends.
use crate::platform::{first_thread_constrained, has_first_thread_constraint, Os};
use vstd::prelude::*;

verus! {

#[derive(Clone, Copy, Debug, PartialEq, Eq, Structural)]
pub enum ThreadMode {
    /// The launch runs on the process's first thread.
    FirstThread,
    /// The launch runs on a thread of its own; the first thread waits.
    BootstrapThread,
}

pub open spec fn mode_for(os: Os, run_on_first_thread: bool) -> ThreadMode {
    if run_on_first_thread || !first_thread_constrained(os) {
        ThreadMode::FirstThread
    } else {
        ThreadMode::BootstrapThread
    }
}

pub fn thread_mode(os: Os, run_on_first_thread: bool) -> (r: ThreadMode)
    ensures
        r == mode_for(os, run_on_first_thread),
{
    if run_on_first_thread || !has_first_thread_constraint(os) {
        ThreadMode::FirstThread
    } else {
        ThreadMode::BootstrapThread
    }
}

#[derive(Clone, Copy, Debug, PartialEq, Eq, Structural)]
pub enum PrimaryPhase {
    Starting,
    /// Waiting in the run loop for the bootstrap thread.
    Parked,
    /// Free to return from `main`.
    Released,
}

/// What the first thread is to do next.
#[derive(Clone, Copy, Debug, PartialEq, Eq, Structural)]
pub enum PrimaryAction {
    /// Run the launch here.
    RunBootstrap,
    /// Start the bootstrap thread and run the launch there.
    SpawnBootstrapThread,
    /// Block in the run loop until the bootstrap thread ends.
    WaitInRunLoop,
    /// Return from `main`.
    Exit,
}

/// What the first thread observed.
#[derive(Clone, Copy, Debug, PartialEq, Eq, Structural)]
pub enum PrimaryEvent {
    /// The launch that ran on the first thread returned.
    BootstrapReturned,
    /// The bootstrap thread was started.
    ThreadSpawned,
    /// The bootstrap thread ended, normally or abruptly.
    BootstrapThreadEnded,
}

#[derive(Clone, Copy, Debug, PartialEq, Eq, Structural)]
pub struct Coordinator {
    pub mode: ThreadMode,
    pub phase: PrimaryPhase,
}

pub open spec fn primary_action(c: Coordinator) -> PrimaryAction {
    match c.phase {
        PrimaryPhase::Starting => if c.mode == ThreadMode::FirstThread {
            PrimaryAction::RunBootstrap
        } else {
            PrimaryAction::SpawnBootstrapThread
        },
        PrimaryPhase::Parked => PrimaryAction::WaitInRunLoop,
        PrimaryPhase::Released => PrimaryAction::Exit,
    }
}

/// Only the event that answers the current action moves the first thread on;
/// any other leaves it where it is.
pub open spec fn primary_after(c: Coordinator, e: PrimaryEvent) -> Coordinator {
    let next = match c.phase {
        PrimaryPhase::Starting => if c.mode == ThreadMode::FirstThread {
            if e == PrimaryEvent::BootstrapReturned {
                PrimaryPhase::Released
            } else {
                c.phase
            }
        } else if e == PrimaryEvent::ThreadSpawned {
            PrimaryPhase::Parked
        } else {
            c.phase
        },
        PrimaryPhase::Parked => if e == PrimaryEvent::BootstrapThreadEnded {
            PrimaryPhase::Released
        } else {
            c.phase
        },
        PrimaryPhase::Released => c.phase,
    };
    Coordinator { phase: next, ..c }
}

/// The first thread's state after the events `evs`.
pub open spec fn primary_run(c: Coordinator, evs: Seq<PrimaryEvent>) -> Coordinator
    decreases evs.len(),
{
    if evs.len() == 0 {
        c
    } else {
        primary_run(primary_after(c, evs[0]), evs.drop_first())
    }
}

impl Coordinator {
    pub fn new(mode: ThreadMode) -> (r: Coordinator)
        ensures
            r == (Coordinator { mode, phase: PrimaryPhase::Starting }),
    {
        Coordinator { mode, phase: PrimaryPhase::Starting }
    }

    pub fn next_action(&self) -> (a: PrimaryAction)
        ensures
            a == primary_action(*self),
    {
        match self.phase {
            PrimaryPhase::Starting => match self.mode {
                ThreadMode::FirstThread => PrimaryAction::RunBootstrap,
                ThreadMode::BootstrapThread => PrimaryAction::SpawnBootstrapThread,
            },
            PrimaryPhase::Parked => PrimaryAction::WaitInRunLoop,
            PrimaryPhase::Released => PrimaryAction::Exit,
        }
    }

    pub fn observe(&mut self, e: PrimaryEvent)
        ensures
            *final(self) == primary_after(*old(self), e),
    {
        let next = match self.phase {
            PrimaryPhase::Starting => match (self.mode, e) {
                (ThreadMode::FirstThread, PrimaryEvent::BootstrapReturned) => PrimaryPhase::Released,
                (ThreadMode::BootstrapThread, PrimaryEvent::ThreadSpawned) => PrimaryPhase::Parked,
                _ => PrimaryPhase::Starting,
            },
            PrimaryPhase::Parked => match e {
                PrimaryEvent::BootstrapThreadEnded => PrimaryPhase::Released,
                _ => PrimaryPhase::Parked,
            },
            PrimaryPhase::Released => PrimaryPhase::Released,
        };
        self.phase = next;
    }
}

pub open spec fn ended_after_spawn(evs: Seq<PrimaryEvent>) -> bool {
    exists|j: int, i: int|
        0 <= j < i < evs.len() && evs[j] == PrimaryEvent::ThreadSpawned && evs[i]
            == PrimaryEvent::BootstrapThreadEnded
}

pub open spec fn ended(evs: Seq<PrimaryEvent>) -> bool {
    exists|i: int| 0 <= i < evs.len() && evs[i] == PrimaryEvent::BootstrapThreadEnded
}

proof fn lemma_release_needs_end(c: Coordinator, evs: Seq<PrimaryEvent>)
    requires
        c.mode == ThreadMode::BootstrapThread,
        c.phase != PrimaryPhase::Released,
        primary_run(c, evs).phase == PrimaryPhase::Released,
    ensures
        c.phase == PrimaryPhase::Parked ==> ended(evs),
        c.phase == PrimaryPhase::Starting ==> ended_after_spawn(evs),
    decreases evs.len(),
{
    if evs.len() > 0 {
        let d = primary_after(c, evs[0]);
        let rest = evs.drop_first();
        if d.phase == PrimaryPhase::Released {
            assert(evs[0] == PrimaryEvent::BootstrapThreadEnded);
        } else {
            lemma_release_needs_end(d, rest);
            if d.phase == PrimaryPhase::Parked {
                let i = choose|i: int|
                    0 <= i < rest.len() && rest[i] == PrimaryEvent::BootstrapThreadEnded;
                assert(evs[i + 1] == PrimaryEvent::BootstrapThreadEnded);
                if c.phase == PrimaryPhase::Starting {
                    assert(evs[0] == PrimaryEvent::ThreadSpawned);
                    assert(0 <= 0 < i + 1 < evs.len());
                }
            } else {
                let (j, i) = choose|j: int, i: int|
                    0 <= j < i < rest.len() && rest[j] == PrimaryEvent::ThreadSpawned && rest[i]
                        == PrimaryEvent::BootstrapThreadEnded;
                assert(evs[j + 1] == PrimaryEvent::ThreadSpawned);
                assert(evs[i + 1] == PrimaryEvent::BootstrapThreadEnded);
            }
        }
    } else {
        assert(primary_run(c, evs) == c);
    }
}

/// When the launch runs on a bootstrap thread, the first thread is released
/// only once that thread was started and has ended since: until the end is
/// observed it keeps waiting in the run loop, and the end releases it.
pub proof fn lemma_primary_waits_for_bootstrap_thread(evs: Seq<PrimaryEvent>)
    ensures
        primary_run(
            Coordinator { mode: ThreadMode::BootstrapThread, phase: PrimaryPhase::Starting },
            evs,
        ).phase == PrimaryPhase::Released ==> ended_after_spawn(evs),
        primary_after(
            Coordinator { mode: ThreadMode::BootstrapThread, phase: PrimaryPhase::Parked },
            PrimaryEvent::BootstrapThreadEnded,
        ).phase == PrimaryPhase::Released,
{
    let c = Coordinator { mode: ThreadMode::BootstrapThread, phase: PrimaryPhase::Starting };
    if primary_run(c, evs).phase == PrimaryPhase::Released {
        lemma_release_needs_end(c, evs);
    }
}

} // verus!
