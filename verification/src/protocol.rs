//! The rendezvous protocol as a transition system over plain values.
//!
//! The contracts of the executable handler are stated over the functions of
//! this module, and so are the theorems about the protocol.

use crate::participant::Participant;
use vstd::prelude::*;

verus! {

/// How one check-in ends.
#[derive(Clone, Copy, Debug, PartialEq, Eq, Structural)]
pub enum Outcome {
    /// The counterpart has checked in as well.
    Rendezvoused,
    /// The wait ended and the counterpart had still not checked in.
    ProceededAlone,
}

/// What a handler does next, once it has checked in.
#[derive(Clone, Copy, Debug, PartialEq, Eq, Structural)]
pub enum Step {
    /// Give up exclusive access, wait for a notification or for
    /// `timeout_secs` seconds, whichever comes first, then resume.
    Wait { timeout_secs: u64 },
    /// Answer the caller.
    Complete(Outcome),
}

/// What the participants share: who has checked in, and whether the
/// termination notice is still to be sent.
pub struct ContextView {
    pub arrived: Set<Participant>,
    pub armed: bool,
}

impl ContextView {
    /// Whether both participants have checked in.
    pub open spec fn rendezvoused(self) -> bool {
        self.arrived.contains(Participant::A) && self.arrived.contains(Participant::B)
    }

    /// How often the termination notice has been sent so far.
    pub open spec fn deliveries(self) -> nat {
        if self.armed {
            0
        } else {
            1
        }
    }
}

/// The state at process start: nobody has checked in, the notice is unsent.
pub open spec fn initial() -> ContextView {
    ContextView { arrived: Set::empty(), armed: true }
}

/// The state after `id` checks in: `id` is marked, and the signal is
/// consumed where the counterpart is found to have checked in before.
pub open spec fn after_arrive(s: ContextView, id: Participant) -> ContextView {
    ContextView {
        arrived: s.arrived.insert(id),
        armed: s.armed && !s.arrived.contains(id.counterpart()),
    }
}

/// What `id` does after checking in: it completes at once where the
/// counterpart has checked in before, and waits otherwise.
pub open spec fn arrive_step(s: ContextView, id: Participant, timeout_secs: u64) -> Step {
    if s.arrived.contains(id.counterpart()) {
        Step::Complete(Outcome::Rendezvoused)
    } else {
        Step::Wait { timeout_secs }
    }
}

/// The state after `id` resumes from its wait: the flags stay, and the signal
/// is consumed where the counterpart is found to have checked in.
pub open spec fn after_resume(s: ContextView, id: Participant) -> ContextView {
    ContextView { arrived: s.arrived, armed: s.armed && !s.arrived.contains(id.counterpart()) }
}

/// How the check-in of `id` ends when it resumes from its wait in state `s`.
pub open spec fn resume_outcome(s: ContextView, id: Participant) -> Outcome {
    if s.arrived.contains(id.counterpart()) {
        Outcome::Rendezvoused
    } else {
        Outcome::ProceededAlone
    }
}

/// One critical section of one handler invocation.
#[derive(Clone, Copy, Debug, PartialEq, Eq, Structural)]
pub enum Op {
    /// A handler marks its participant and looks for the counterpart.
    Arrive(Participant),
    /// A handler comes back from its wait and looks for the counterpart again.
    Resume(Participant),
}

impl Op {
    /// The participant whose handler runs the critical section.
    pub open spec fn id(self) -> Participant {
        match self {
            Op::Arrive(id) => id,
            Op::Resume(id) => id,
        }
    }
}

/// The state after one critical section.
pub open spec fn apply(s: ContextView, op: Op) -> ContextView {
    match op {
        Op::Arrive(id) => after_arrive(s, id),
        Op::Resume(id) => after_resume(s, id),
    }
}

/// Whether the handler that runs `op` in state `s` asks for the termination
/// notice: it does so where it finds that the counterpart has checked in.
pub open spec fn requests_shutdown(s: ContextView, op: Op) -> bool {
    s.arrived.contains(op.id().counterpart())
}

/// Whether the critical section `op`, entered in state `s`, sends the
/// notice: its handler asks for it, and it has not been sent before.
pub open spec fn fires(s: ContextView, op: Op) -> bool {
    s.armed && requests_shutdown(s, op)
}

/// The state after the critical sections `ops`, in that order.
pub open spec fn run(s: ContextView, ops: Seq<Op>) -> ContextView
    decreases ops.len(),
{
    if ops.len() == 0 {
        s
    } else {
        apply(run(s, ops.drop_last()), ops.last())
    }
}

/// How many of the critical sections `ops`, run in that order from `s`, ask
/// for the notice.
pub open spec fn request_count(s: ContextView, ops: Seq<Op>) -> nat
    decreases ops.len(),
{
    if ops.len() == 0 {
        0
    } else {
        let before = run(s, ops.drop_last());
        request_count(s, ops.drop_last()) + if requests_shutdown(before, ops.last()) {
            1nat
        } else {
            0nat
        }
    }
}

/// How many of the critical sections `ops`, run in that order from `s`, send
/// the notice.
pub open spec fn fire_count(s: ContextView, ops: Seq<Op>) -> nat
    decreases ops.len(),
{
    if ops.len() == 0 {
        0
    } else {
        let before = run(s, ops.drop_last());
        fire_count(s, ops.drop_last()) + if fires(before, ops.last()) {
            1nat
        } else {
            0nat
        }
    }
}

} // verus!
