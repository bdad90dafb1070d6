//! A two-party rendezvous barrier with a single-use shutdown signal.
//!
//! Two participants, `A` and `B`, check in at unpredictable times. Each
//! proceeds once the other has checked in, or after a bounded wait. When both
//! have been observed, the hosting process is asked, exactly once, to
//! terminate.
//!
//! The library decides; its caller waits. A transport calls
//! [`handler::ArrivalHandler::arrive`] under exclusive access to the
//! [`handler::SharedContext`], performs the wait it is told to perform
//! without holding that access, and calls
//! [`handler::ArrivalHandler::resume`] under exclusive access again. The
//! top-level task of the process hands what it observes to
//! [`lifecycle::ProcessLifecycle::observe`] and does what it is told.
//!
//! [`protocol`] holds the protocol as a transition system, over which the
//! contracts are stated, and [`theorems`] what is proved of it.

pub mod handler;
pub mod lifecycle;
pub mod participant;
pub mod protocol;
pub mod response;
pub mod shutdown;
pub mod state;
pub mod theorems;
