//! The shared context and the handler that checks a participant in.

use crate::participant::Participant;
use crate::protocol::{
    after_arrive, after_resume, arrive_step, initial, resume_outcome, ContextView, Outcome, Step,
};
use crate::shutdown::ShutdownCoordinator;
use crate::state::RendezvousState;
use std::sync::Arc;
use tokio::sync::oneshot::Sender;
use tokio::sync::Notify;
use vstd::prelude::*;

verus! {

/// The wait, in seconds, of a handler that is not configured otherwise.
pub const DEFAULT_TIMEOUT_SECS: u64 = 10;

/// Everything the handler invocations of one process share. It is created
/// once, and every invocation works on it under exclusive access.
pub struct SharedContext {
    state: RendezvousState,
    shutdown: ShutdownCoordinator,
}

impl View for SharedContext {
    type V = ContextView;

    closed spec fn view(&self) -> ContextView {
        ContextView { arrived: self.state@, armed: self.shutdown.armed() }
    }
}

impl SharedContext {
    /// The context at process start. Check-ins will be announced on
    /// `notifier`, and the termination notice will go out through `sender`.
    pub fn new(notifier: Arc<Notify>, sender: Sender<()>) -> (ctx: Self)
        ensures
            ctx@ == initial(),
    {
        SharedContext {
            state: RendezvousState::new(notifier),
            shutdown: ShutdownCoordinator::new(sender),
        }
    }

    /// Whether `id` has checked in.
    pub fn has_arrived(&self, id: Participant) -> (arrived: bool)
        ensures
            arrived == self@.arrived.contains(id),
    {
        self.state.has_arrived(id)
    }

    /// Whether the termination notice has been sent.
    pub fn shutdown_requested(&self) -> (requested: bool)
        ensures
            requested == !self@.armed,
    {
        self.shutdown.is_consumed()
    }
}

/// The handler of one participant's trigger. It may be invoked any number of
/// times, also while other invocations for the same or for the other
/// participant are under way.
#[derive(Clone, Copy, Debug)]
pub struct ArrivalHandler {
    id: Participant,
    timeout_secs: u64,
}

impl ArrivalHandler {
    /// The participant this handler checks in.
    pub closed spec fn spec_id(&self) -> Participant {
        self.id
    }

    /// The bound, in seconds, on this handler's wait for the counterpart.
    pub closed spec fn spec_timeout_secs(&self) -> u64 {
        self.timeout_secs
    }

    /// The handler of `id` with the default timeout.
    pub fn new(id: Participant) -> (handler: Self)
        ensures
            handler.id() == id,
            handler.timeout_secs() == DEFAULT_TIMEOUT_SECS,
    {
        ArrivalHandler { id, timeout_secs: DEFAULT_TIMEOUT_SECS }
    }

    /// The handler of `id` that waits at most `timeout_secs` seconds.
    pub fn with_timeout(id: Participant, timeout_secs: u64) -> (handler: Self)
        ensures
            handler.id() == id,
            handler.timeout_secs() == timeout_secs,
    {
        ArrivalHandler { id, timeout_secs }
    }

    /// The participant this handler checks in.
    #[verifier::when_used_as_spec(spec_id)]
    pub fn id(&self) -> (id: Participant)
        ensures
            id == self.spec_id(),
    {
        self.id
    }

    /// The bound, in seconds, on this handler's wait for the counterpart.
    #[verifier::when_used_as_spec(spec_timeout_secs)]
    pub fn timeout_secs(&self) -> (timeout_secs: u64)
        ensures
            timeout_secs == self.spec_timeout_secs(),
    {
        self.timeout_secs
    }

    /// Checks the participant in. Under the caller's exclusive access to
    /// `ctx`, the participant is marked, one wake-one notification goes out,
    /// and the counterpart's flag is read. Where the counterpart has checked
    /// in, the termination notice is requested and the check-in completes;
    /// otherwise the caller is told to wait, with this handler's timeout.
    pub fn arrive(&self, ctx: &mut SharedContext) -> (step: Step)
        ensures
            final(ctx)@ == after_arrive(old(ctx)@, self.id()),
            step == arrive_step(old(ctx)@, self.id(), self.timeout_secs()),
    {
        ctx.state.mark_arrived(self.id);
        if ctx.state.counterpart_arrived(self.id) {
            ctx.shutdown.fire();
            Step::Complete(Outcome::Rendezvoused)
        } else {
            Step::Wait { timeout_secs: self.timeout_secs }
        }
    }

    /// Ends the check-in after the wait, however the wait ended. Under the
    /// caller's exclusive access to `ctx`, the counterpart's flag is read
    /// again. Where it is set, the termination notice is requested.
    pub fn resume(&self, ctx: &mut SharedContext) -> (outcome: Outcome)
        ensures
            final(ctx)@ == after_resume(old(ctx)@, self.id()),
            outcome == resume_outcome(old(ctx)@, self.id()),
    {
        if ctx.state.counterpart_arrived(self.id) {
            ctx.shutdown.fire();
            Outcome::Rendezvoused
        } else {
            Outcome::ProceededAlone
        }
    }
}

} // verus!
