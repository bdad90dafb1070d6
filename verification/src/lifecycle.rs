//! The life of the hosting process: it serves until the termination notice
//! arrives, and it is the only place from which the process is ended.

use crate::handler::SharedContext;
use crate::participant::Participant;
use crate::protocol::ContextView;
use vstd::prelude::*;

verus! {

/// The exit code of a process that ends because of the termination notice.
pub const SHUTDOWN_EXIT_CODE: i32 = 0;

/// Where the top-level race between serving and the termination notice stands.
#[derive(Clone, Copy, Debug, PartialEq, Eq, Structural)]
pub enum LifecyclePhase {
    /// The serving loop runs and no notice has arrived.
    Serving,
    /// The termination notice arrived first. Terminal.
    Terminated,
    /// The serving loop ended by itself first. Terminal.
    Stopped,
}

/// What ends the top-level race.
#[derive(Clone, Copy, Debug, PartialEq, Eq, Structural)]
pub enum LifecycleEvent {
    /// The receiving half of the termination signal resolved.
    NoticeReceived,
    /// The serving loop returned.
    ServerStopped,
}

/// What the process does about an event.
#[derive(Clone, Copy, Debug, PartialEq, Eq, Structural)]
pub enum LifecycleAction {
    /// End the process with this exit code.
    Exit { code: i32 },
    /// Leave the top level normally.
    Return,
}

/// The state of the whole process, as far as the rendezvous is concerned.
#[derive(Clone, Copy, Debug, PartialEq, Eq, Structural)]
pub enum ProcessState {
    /// Nobody has checked in.
    WaitingBoth,
    /// Exactly one participant has checked in.
    WaitingOne,
    /// Both participants have checked in.
    Rendezvoused,
    /// The termination notice was received and the process ends. Terminal.
    Terminated,
}

impl ProcessState {
    /// How far the process has come: states are only ever left for a later one.
    pub open spec fn rank(self) -> nat {
        match self {
            ProcessState::WaitingBoth => 0,
            ProcessState::WaitingOne => 1,
            ProcessState::Rendezvoused => 2,
            ProcessState::Terminated => 3,
        }
    }
}

/// The phase after `event` is observed in `phase`. The first event decides;
/// a terminal phase is never left.
pub open spec fn next_phase(phase: LifecyclePhase, event: LifecycleEvent) -> LifecyclePhase {
    match phase {
        LifecyclePhase::Serving => match event {
            LifecycleEvent::NoticeReceived => LifecyclePhase::Terminated,
            LifecycleEvent::ServerStopped => LifecyclePhase::Stopped,
        },
        LifecyclePhase::Terminated => LifecyclePhase::Terminated,
        LifecyclePhase::Stopped => LifecyclePhase::Stopped,
    }
}

/// What the process does once it is in `phase`: it keeps the outcome of the
/// event that decided.
pub open spec fn action_in(phase: LifecyclePhase) -> Option<LifecycleAction> {
    match phase {
        LifecyclePhase::Serving => None,
        LifecyclePhase::Terminated => Some(LifecycleAction::Exit { code: SHUTDOWN_EXIT_CODE }),
        LifecyclePhase::Stopped => Some(LifecycleAction::Return),
    }
}

/// The state of the process, derived from who has checked in and from the
/// lifecycle phase. It is not stored anywhere.
pub open spec fn process_state_of(s: ContextView, phase: LifecyclePhase) -> ProcessState {
    if phase == LifecyclePhase::Terminated {
        ProcessState::Terminated
    } else if s.rendezvoused() {
        ProcessState::Rendezvoused
    } else if s.arrived.contains(Participant::A) || s.arrived.contains(Participant::B) {
        ProcessState::WaitingOne
    } else {
        ProcessState::WaitingBoth
    }
}

/// The top-level task of the process.
pub struct ProcessLifecycle {
    phase: LifecyclePhase,
}

impl View for ProcessLifecycle {
    type V = LifecyclePhase;

    closed spec fn view(&self) -> LifecyclePhase {
        self.phase
    }
}

impl ProcessLifecycle {
    /// The lifecycle of a process that has just begun to serve.
    pub fn new() -> (lifecycle: Self)
        ensures
            lifecycle@ == LifecyclePhase::Serving,
    {
        ProcessLifecycle { phase: LifecyclePhase::Serving }
    }

    /// The current phase.
    pub fn phase(&self) -> (phase: LifecyclePhase)
        ensures
            phase == self@,
    {
        self.phase
    }

    /// Takes note of `event` and says what the process does now: on the
    /// termination notice it exits with `SHUTDOWN_EXIT_CODE`, on the end of
    /// the serving loop it returns. Once one of the two has happened, later
    /// events change nothing.
    pub fn observe(&mut self, event: LifecycleEvent) -> (action: LifecycleAction)
        ensures
            final(self)@ == next_phase(old(self)@, event),
            Some(action) == action_in(final(self)@),
    {
        match self.phase {
            LifecyclePhase::Serving => match event {
                LifecycleEvent::NoticeReceived => {
                    self.phase = LifecyclePhase::Terminated;
                    LifecycleAction::Exit { code: SHUTDOWN_EXIT_CODE }
                },
                LifecycleEvent::ServerStopped => {
                    self.phase = LifecyclePhase::Stopped;
                    LifecycleAction::Return
                },
            },
            LifecyclePhase::Terminated => LifecycleAction::Exit { code: SHUTDOWN_EXIT_CODE },
            LifecyclePhase::Stopped => LifecycleAction::Return,
        }
    }
}

/// The state of the process, derived from the shared context and the lifecycle.
pub fn process_state(ctx: &SharedContext, lifecycle: &ProcessLifecycle) -> (state: ProcessState)
    ensures
        state == process_state_of(ctx@, lifecycle@),
{
    let a = ctx.has_arrived(Participant::A);
    let b = ctx.has_arrived(Participant::B);
    if lifecycle.phase() == LifecyclePhase::Terminated {
        ProcessState::Terminated
    } else if a && b {
        ProcessState::Rendezvoused
    } else if a || b {
        ProcessState::WaitingOne
    } else {
        ProcessState::WaitingBoth
    }
}

} // verus!
