use std::sync::Arc;
use tokio::sync::oneshot;
use tokio::sync::Notify;
use web_sync::handler::{ArrivalHandler, SharedContext};
use web_sync::lifecycle::{
    process_state, LifecycleAction, LifecycleEvent, LifecyclePhase, ProcessLifecycle, ProcessState,
    SHUTDOWN_EXIT_CODE,
};
use web_sync::participant::Participant;

#[test]
fn a_new_lifecycle_is_serving() {
    assert_eq!(ProcessLifecycle::new().phase(), LifecyclePhase::Serving);
}

#[test]
fn shutdown_exit_code_is_zero() {
    assert_eq!(SHUTDOWN_EXIT_CODE, 0);
}

#[test]
fn the_notice_ends_the_process_with_code_zero() {
    let mut lifecycle = ProcessLifecycle::new();
    let action = lifecycle.observe(LifecycleEvent::NoticeReceived);
    assert_eq!(action, LifecycleAction::Exit { code: 0 });
    assert_eq!(lifecycle.phase(), LifecyclePhase::Terminated);
}

#[test]
fn a_stopped_server_returns_normally() {
    let mut lifecycle = ProcessLifecycle::new();
    let action = lifecycle.observe(LifecycleEvent::ServerStopped);
    assert_eq!(action, LifecycleAction::Return);
    assert_eq!(lifecycle.phase(), LifecyclePhase::Stopped);
}

#[test]
fn the_first_event_decides() {
    let mut terminated = ProcessLifecycle::new();
    terminated.observe(LifecycleEvent::NoticeReceived);
    assert_eq!(terminated.observe(LifecycleEvent::ServerStopped), LifecycleAction::Exit { code: 0 });
    assert_eq!(terminated.observe(LifecycleEvent::NoticeReceived), LifecycleAction::Exit { code: 0 });
    assert_eq!(terminated.phase(), LifecyclePhase::Terminated);

    let mut stopped = ProcessLifecycle::new();
    stopped.observe(LifecycleEvent::ServerStopped);
    assert_eq!(stopped.observe(LifecycleEvent::NoticeReceived), LifecycleAction::Return);
    assert_eq!(stopped.observe(LifecycleEvent::ServerStopped), LifecycleAction::Return);
    assert_eq!(stopped.phase(), LifecyclePhase::Stopped);
}

#[test]
fn process_state_follows_the_arrivals() {
    let (sender, _receiver) = oneshot::channel();
    let mut ctx = SharedContext::new(Arc::new(Notify::new()), sender);
    let lifecycle = ProcessLifecycle::new();
    let b = ArrivalHandler::new(Participant::B);
    let a = ArrivalHandler::new(Participant::A);

    assert_eq!(process_state(&ctx, &lifecycle), ProcessState::WaitingBoth);
    b.arrive(&mut ctx);
    assert_eq!(process_state(&ctx, &lifecycle), ProcessState::WaitingOne);
    b.arrive(&mut ctx);
    b.resume(&mut ctx);
    assert_eq!(process_state(&ctx, &lifecycle), ProcessState::WaitingOne);
    a.arrive(&mut ctx);
    assert_eq!(process_state(&ctx, &lifecycle), ProcessState::Rendezvoused);
    a.arrive(&mut ctx);
    b.resume(&mut ctx);
    assert_eq!(process_state(&ctx, &lifecycle), ProcessState::Rendezvoused);
}

#[test]
fn a_stopped_server_does_not_count_as_terminated() {
    let (sender, _receiver) = oneshot::channel();
    let ctx = SharedContext::new(Arc::new(Notify::new()), sender);
    let mut lifecycle = ProcessLifecycle::new();
    lifecycle.observe(LifecycleEvent::ServerStopped);
    assert_eq!(process_state(&ctx, &lifecycle), ProcessState::WaitingBoth);
}
