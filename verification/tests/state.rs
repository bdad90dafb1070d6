use std::sync::Arc;
use std::time::Duration;
use tokio::sync::Notify;
use web_sync::participant::Participant;
use web_sync::state::{ParticipantSlot, RendezvousState};

/// Whether a wait on `notify` ends within a moment, that is, whether a
/// notification is pending.
fn wakes_at_once(notify: &Notify) -> bool {
    let runtime = tokio::runtime::Builder::new_current_thread().enable_time().build().unwrap();
    runtime.block_on(async {
        tokio::time::timeout(Duration::from_millis(50), notify.notified()).await.is_ok()
    })
}

#[test]
fn counterpart_of_each_participant() {
    assert_eq!(Participant::A.counterpart(), Participant::B);
    assert_eq!(Participant::B.counterpart(), Participant::A);
    assert_eq!(Participant::A.counterpart().counterpart(), Participant::A);
}

#[test]
fn slot_starts_unset_and_stays_set() {
    let mut slot = ParticipantSlot::new();
    assert!(!slot.has_arrived());
    slot.mark();
    assert!(slot.has_arrived());
    slot.mark();
    assert!(slot.has_arrived());
}

#[test]
fn fresh_state_has_no_arrivals() {
    let state = RendezvousState::new(Arc::new(Notify::new()));
    assert!(!state.has_arrived(Participant::A));
    assert!(!state.has_arrived(Participant::B));
    assert!(!state.counterpart_arrived(Participant::A));
    assert!(!state.counterpart_arrived(Participant::B));
}

#[test]
fn marking_one_participant_leaves_the_other() {
    let mut state = RendezvousState::new(Arc::new(Notify::new()));
    state.mark_arrived(Participant::A);
    assert!(state.has_arrived(Participant::A));
    assert!(!state.has_arrived(Participant::B));
    assert!(state.counterpart_arrived(Participant::B));
    assert!(!state.counterpart_arrived(Participant::A));

    state.mark_arrived(Participant::B);
    assert!(state.has_arrived(Participant::A));
    assert!(state.has_arrived(Participant::B));
    assert!(state.counterpart_arrived(Participant::A));
    assert!(state.counterpart_arrived(Participant::B));
}

#[test]
fn marking_twice_is_marking_once() {
    let mut state = RendezvousState::new(Arc::new(Notify::new()));
    state.mark_arrived(Participant::B);
    state.mark_arrived(Participant::B);
    assert!(state.has_arrived(Participant::B));
    assert!(!state.has_arrived(Participant::A));
}

#[test]
fn no_notification_before_anyone_arrives() {
    let notify = Arc::new(Notify::new());
    let _state = RendezvousState::new(notify.clone());
    assert!(!wakes_at_once(&notify));
}

#[test]
fn an_arrival_emits_a_notification() {
    let notify = Arc::new(Notify::new());
    let mut state = RendezvousState::new(notify.clone());
    state.mark_arrived(Participant::A);
    assert!(wakes_at_once(&notify));
    assert!(!wakes_at_once(&notify));
}

#[test]
fn a_notification_wakes_one_waiter_not_all() {
    let notify = Arc::new(Notify::new());
    let mut state = RendezvousState::new(notify.clone());
    let runtime = tokio::runtime::Builder::new_current_thread().enable_time().build().unwrap();
    let woken = runtime.block_on(async {
        let first = tokio::spawn({
            let notify = notify.clone();
            async move {
                tokio::time::timeout(Duration::from_secs(2), notify.notified()).await.is_ok()
            }
        });
        let second = tokio::spawn({
            let notify = notify.clone();
            async move {
                tokio::time::timeout(Duration::from_secs(2), notify.notified()).await.is_ok()
            }
        });
        tokio::time::sleep(Duration::from_millis(100)).await;
        state.mark_arrived(Participant::A);
        (first.await.unwrap(), second.await.unwrap())
    });
    assert!(woken.0 != woken.1);
}
