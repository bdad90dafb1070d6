//! The shared record of who has checked in.

use crate::participant::Participant;
use std::sync::Arc;
use tokio::sync::Notify;
use vstd::prelude::*;

verus! {

/// tokio's wake-one notification primitive, carried as an opaque value.
#[verifier::external_type_specification]
#[verifier::external_body]
pub struct ExNotify(tokio::sync::Notify);

/// Calls `tokio::sync::Notify::notify_one`: wakes at most one task that waits
/// on the primitive, or stores a single permit for the next one to wait.
/// Nothing is claimed of the effect.
#[verifier::external_body]
fn wake_one(notifier: &Arc<Notify>) {
    notifier.notify_one();
}

/// The arrival flag of one participant: set once, never cleared.
pub struct ParticipantSlot {
    arrived: bool,
}

impl ParticipantSlot {
    /// Whether the participant has checked in.
    pub closed spec fn arrived(&self) -> bool {
        self.arrived
    }

    /// A slot whose participant has not checked in yet.
    pub fn new() -> (slot: Self)
        ensures
            !slot.arrived(),
    {
        ParticipantSlot { arrived: false }
    }

    /// Whether the participant has checked in.
    pub fn has_arrived(&self) -> (arrived: bool)
        ensures
            arrived == self.arrived(),
    {
        self.arrived
    }

    /// Records the check-in. Marking a slot that is already marked changes nothing.
    pub fn mark(&mut self)
        ensures
            final(self).arrived(),
            old(self).arrived() ==> *final(self) == *old(self),
    {
        self.arrived = true;
    }
}

/// One slot per participant, and the primitive by which a check-in is announced.
pub struct RendezvousState {
    slot_a: ParticipantSlot,
    slot_b: ParticipantSlot,
    notifier: Arc<Notify>,
}

impl View for RendezvousState {
    type V = Set<Participant>;

    /// The participants that have checked in.
    closed spec fn view(&self) -> Set<Participant> {
        Set::new(
            |p: Participant|
                match p {
                    Participant::A => self.slot_a.arrived(),
                    Participant::B => self.slot_b.arrived(),
                },
        )
    }
}

impl RendezvousState {
    /// The primitive on which this state announces check-ins.
    pub closed spec fn notifier(&self) -> Arc<Notify> {
        self.notifier
    }

    /// A state in which nobody has checked in. Check-ins will be announced on `notifier`.
    pub fn new(notifier: Arc<Notify>) -> (state: Self)
        ensures
            state@ == Set::<Participant>::empty(),
            state.notifier() == notifier,
    {
        RendezvousState { slot_a: ParticipantSlot::new(), slot_b: ParticipantSlot::new(), notifier }
    }

    /// Whether `id` has checked in.
    pub fn has_arrived(&self, id: Participant) -> (arrived: bool)
        ensures
            arrived == self@.contains(id),
    {
        match id {
            Participant::A => self.slot_a.has_arrived(),
            Participant::B => self.slot_b.has_arrived(),
        }
    }

    /// Whether the counterpart of `id` has checked in.
    pub fn counterpart_arrived(&self, id: Participant) -> (arrived: bool)
        ensures
            arrived == self@.contains(id.counterpart()),
    {
        self.has_arrived(id.counterpart())
    }

    /// Records that `id` has checked in, then announces it with one wake-one
    /// notification. The flag is written before the notification goes out.
    pub fn mark_arrived(&mut self, id: Participant)
        ensures
            final(self)@ == old(self)@.insert(id),
            final(self).notifier() == old(self).notifier(),
    {
        match id {
            Participant::A => self.slot_a.mark(),
            Participant::B => self.slot_b.mark(),
        }
        wake_one(&self.notifier);
    }
}

} // verus!
