//! What the caller of a trigger is told.

use crate::participant::Participant;
use crate::protocol::Outcome;
use vstd::prelude::*;
use vstd::string::StringExecFns;

verus! {

/// The status of an answer to a check-in that completed.
pub const STATUS_OK: u16 = 200;

/// The status of an answer to a check-in that could not reach the shared state.
pub const STATUS_INTERNAL_FAULT: u16 = 500;

/// Exclusive access to the shared state could not be acquired. The request
/// that met the fault fails; the shared state and later requests are not
/// affected.
#[derive(Clone, Copy, Debug, PartialEq, Eq, Structural)]
pub struct AccessFault;

/// An answer for the transport to render.
#[derive(Clone, Debug, PartialEq, Eq)]
pub struct Response {
    pub status: u16,
    pub body: String,
}

/// The name of a participant's service: "Service 1" for `A`, "Service 2" for `B`.
pub open spec fn service_name(id: Participant) -> Seq<char> {
    match id {
        Participant::A => "Service 1"@,
        Participant::B => "Service 2"@,
    }
}

/// The status of the answer: a timeout is no failure, a fault is.
pub open spec fn status_of(result: Result<Outcome, AccessFault>) -> u16 {
    match result {
        Ok(_) => STATUS_OK,
        Err(_) => STATUS_INTERNAL_FAULT,
    }
}

/// The text of the answer. It names the service, and tells a rendezvous from
/// a check-in that went on without the counterpart.
pub open spec fn body_of(id: Participant, result: Result<Outcome, AccessFault>) -> Seq<char> {
    match result {
        Ok(Outcome::Rendezvoused) => service_name(id) + " completed"@,
        Ok(Outcome::ProceededAlone) => service_name(id) + " completed: proceeded without "@
            + service_name(id.counterpart()),
        Err(_) => service_name(id) + " failed: shared state unavailable"@,
    }
}

/// The name of a participant's service.
pub fn service_label(id: Participant) -> (name: String)
    ensures
        name@ == service_name(id),
{
    match id {
        Participant::A => "Service 1".to_owned(),
        Participant::B => "Service 2".to_owned(),
    }
}

/// The answer to the trigger of `id` whose check-in ended in `result`.
pub fn respond(id: Participant, result: Result<Outcome, AccessFault>) -> (response: Response)
    ensures
        response.status == status_of(result),
        response.body@ == body_of(id, result),
{
    let mut body = service_label(id);
    match result {
        Ok(Outcome::Rendezvoused) => {
            body.append(" completed");
            Response { status: STATUS_OK, body }
        },
        Ok(Outcome::ProceededAlone) => {
            body.append(" completed: proceeded without ");
            let other = service_label(id.counterpart());
            body.append(other.as_str());
            Response { status: STATUS_OK, body }
        },
        Err(_) => {
            body.append(" failed: shared state unavailable");
            Response { status: STATUS_INTERNAL_FAULT, body }
        },
    }
}

} // verus!
