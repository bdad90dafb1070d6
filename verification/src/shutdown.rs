//! The single-use signal that asks the hosting process to terminate.

use tokio::sync::oneshot::Sender;
use vstd::prelude::*;

verus! {

/// The sending half of tokio's one-shot channel, carried as an opaque value.
#[verifier::external_type_specification]
#[verifier::external_body]
#[verifier::reject_recursive_types(T)]
pub struct ExSender<T>(tokio::sync::oneshot::Sender<T>);

/// Calls `tokio::sync::oneshot::Sender::send` with the unit value and drops
/// its result: the notice is handed to the receiving half, or lost where that
/// half is gone. Nothing is claimed of the effect.
#[verifier::external_body]
fn deliver(sender: Sender<()>) {
    let _ = sender.send(());
}

/// Owner of the termination notice. The notice goes out at most once, however
/// often and by whomever `fire` is called.
pub struct ShutdownCoordinator {
    signal: Option<Sender<()>>,
}

impl ShutdownCoordinator {
    /// Whether the notice is still to be sent.
    pub closed spec fn armed(&self) -> bool {
        self.signal is Some
    }

    /// A coordinator that will send its notice through `sender`.
    pub fn new(sender: Sender<()>) -> (coordinator: Self)
        ensures
            coordinator.armed(),
    {
        ShutdownCoordinator { signal: Some(sender) }
    }

    /// Whether the notice has been sent already.
    pub fn is_consumed(&self) -> (consumed: bool)
        ensures
            consumed == !self.armed(),
    {
        self.signal.is_none()
    }

    /// Sends the notice if it has not been sent yet; otherwise does nothing.
    /// Either way the signal is consumed afterwards.
    pub fn fire(&mut self)
        ensures
            !final(self).armed(),
    {
        match self.signal.take() {
            Some(sender) => deliver(sender),
            None => {},
        }
    }
}

} // verus!
