use std::future::Future;
use std::sync::{Arc, Mutex};
use std::time::{Duration, Instant};
use tokio::sync::oneshot;
use tokio::sync::oneshot::error::TryRecvError;
use tokio::sync::Notify;
use web_sync::handler::{ArrivalHandler, SharedContext};
use web_sync::participant::Participant;
use web_sync::protocol::{Outcome, Step};
use web_sync::response::{respond, Response};

fn block_on<F: Future>(future: F) -> F::Output {
    tokio::runtime::Builder::new_current_thread().enable_time().build().unwrap().block_on(future)
}

/// One whole call of a trigger, as a transport would run it: check in under
/// the lock, wait without it, look again under the lock.
async fn call(
    context: Arc<Mutex<SharedContext>>,
    notify: Arc<Notify>,
    handler: ArrivalHandler,
) -> Response {
    let step = handler.arrive(&mut context.lock().unwrap());
    let outcome = match step {
        Step::Complete(outcome) => outcome,
        Step::Wait { timeout_secs } => {
            let _ = tokio::time::timeout(Duration::from_secs(timeout_secs), notify.notified()).await;
            handler.resume(&mut context.lock().unwrap())
        }
    };
    respond(handler.id(), Ok(outcome))
}

#[test]
fn the_wait_lasts_the_timeout_when_nobody_notifies() {
    let notify = Arc::new(Notify::new());
    let (sender, mut receiver) = oneshot::channel();
    let mut ctx = SharedContext::new(notify.clone(), sender);
    let a = ArrivalHandler::with_timeout(Participant::A, 1);

    let step = a.arrive(&mut ctx);
    assert_eq!(step, Step::Wait { timeout_secs: 1 });
    let waited = block_on(async {
        // The notification of A's own check-in is taken first.
        tokio::time::timeout(Duration::from_millis(50), notify.notified()).await.unwrap();
        let begun = Instant::now();
        let woken = tokio::time::timeout(Duration::from_secs(1), notify.notified()).await;
        assert!(woken.is_err());
        begun.elapsed()
    });
    assert!(waited >= Duration::from_secs(1));
    assert!(waited < Duration::from_secs(4));
    assert_eq!(a.resume(&mut ctx), Outcome::ProceededAlone);
    assert_eq!(receiver.try_recv(), Err(TryRecvError::Empty));
}

#[test]
fn a_waiting_handler_is_woken_by_the_counterpart() {
    let notify = Arc::new(Notify::new());
    let (sender, mut receiver) = oneshot::channel();
    let mut ctx = SharedContext::new(notify.clone(), sender);
    let a = ArrivalHandler::new(Participant::A);
    let b = ArrivalHandler::new(Participant::B);

    assert_eq!(a.arrive(&mut ctx), Step::Wait { timeout_secs: 10 });
    let (woken, waited, b_step) = block_on(async {
        tokio::time::timeout(Duration::from_millis(50), notify.notified()).await.unwrap();
        let begun = Instant::now();
        let waiter = tokio::spawn({
            let notify = notify.clone();
            async move { tokio::time::timeout(Duration::from_secs(10), notify.notified()).await.is_ok() }
        });
        tokio::time::sleep(Duration::from_millis(50)).await;
        let b_step = b.arrive(&mut ctx);
        let woken = waiter.await.unwrap();
        (woken, begun.elapsed(), b_step)
    });
    assert!(woken);
    assert!(waited < Duration::from_secs(5));
    assert_eq!(b_step, Step::Complete(Outcome::Rendezvoused));
    assert_eq!(a.resume(&mut ctx), Outcome::Rendezvoused);
    assert_eq!(receiver.try_recv(), Ok(()));
}

#[test]
fn concurrent_triggers_both_succeed_and_fire_once() {
    let notify = Arc::new(Notify::new());
    let (sender, mut receiver) = oneshot::channel();
    let context = Arc::new(Mutex::new(SharedContext::new(notify.clone(), sender)));

    let begun = Instant::now();
    let (a_response, b_response) = block_on(async {
        let a = tokio::spawn(call(
            context.clone(),
            notify.clone(),
            ArrivalHandler::with_timeout(Participant::A, 2),
        ));
        let b = tokio::spawn(call(
            context.clone(),
            notify.clone(),
            ArrivalHandler::with_timeout(Participant::B, 2),
        ));
        (a.await.unwrap(), b.await.unwrap())
    });
    assert!(begun.elapsed() < Duration::from_secs(5));

    assert_eq!(a_response.status, 200);
    assert_eq!(b_response.status, 200);
    assert!(a_response.body.starts_with("Service 1 completed"));
    assert!(b_response.body.starts_with("Service 2 completed"));
    assert!(a_response.body == "Service 1 completed" || b_response.body == "Service 2 completed");

    assert!(context.lock().unwrap().shutdown_requested());
    assert_eq!(receiver.try_recv(), Ok(()));
    assert_eq!(receiver.try_recv(), Err(TryRecvError::Closed));
}

#[test]
fn a_lone_trigger_returns_within_its_timeout() {
    let notify = Arc::new(Notify::new());
    let (sender, mut receiver) = oneshot::channel();
    let context = Arc::new(Mutex::new(SharedContext::new(notify.clone(), sender)));

    let begun = Instant::now();
    let response = block_on(call(
        context.clone(),
        notify.clone(),
        ArrivalHandler::with_timeout(Participant::A, 1),
    ));
    assert!(begun.elapsed() < Duration::from_secs(4));
    assert_eq!(
        response,
        Response {
            status: 200,
            body: String::from("Service 1 completed: proceeded without Service 2"),
        }
    );
    assert!(!context.lock().unwrap().shutdown_requested());
    assert_eq!(receiver.try_recv(), Err(TryRecvError::Empty));
}
