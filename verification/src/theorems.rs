//! What holds of the rendezvous protocol, whatever the schedule.
//!
//! A schedule is a sequence of critical sections: every handler invocation
//! contributes its check-in and, where it had to wait, its resumption. The
//! invocations of the two participants may interleave in any way.
//!
//! A call of `ArrivalHandler::arrive` or `ArrivalHandler::resume` takes the
//! shared context from a state to `apply` of that state, so what is proved
//! here of schedules holds of every sequence of such calls.

use crate::lifecycle::{
    action_in, next_phase, process_state_of, LifecycleAction, LifecycleEvent, LifecyclePhase,
    ProcessState, SHUTDOWN_EXIT_CODE,
};
use crate::participant::Participant;
use crate::protocol::{
    after_arrive, after_resume, apply, arrive_step, fire_count, fires, initial, request_count,
    requests_shutdown, resume_outcome, run, ContextView, Op, Outcome, Step,
};
use crate::response::{
    body_of, service_name, status_of, AccessFault, STATUS_INTERNAL_FAULT, STATUS_OK,
};
use vstd::prelude::*;

verus! {

/// Whether every resumption in `ops`, run from `s`, belongs to a participant
/// that has checked in before: a handler resumes only after its own check-in.
pub open spec fn well_ordered(s: ContextView, ops: Seq<Op>) -> bool
    decreases ops.len(),
{
    if ops.len() == 0 {
        true
    } else {
        &&& well_ordered(s, ops.drop_last())
        &&& match ops.last() {
            Op::Arrive(_) => true,
            Op::Resume(id) => run(s, ops.drop_last()).arrived.contains(id),
        }
    }
}

/// Whether the notice is unsent exactly as long as a participant is missing.
/// The state at process start is consistent, and so is every state that the
/// handlers lead to from there.
pub open spec fn consistent(s: ContextView) -> bool {
    s.armed <==> !s.rendezvoused()
}

/// Running one more critical section after `ops` applies it to the state
/// that `ops` leads to, and counts its request and its notice, if it makes
/// the one and sends the other.
pub proof fn lemma_extend(s: ContextView, ops: Seq<Op>, op: Op)
    ensures
        run(s, ops.push(op)) == apply(run(s, ops), op),
        request_count(s, ops.push(op)) == request_count(s, ops) + if requests_shutdown(
            run(s, ops),
            op,
        ) {
            1nat
        } else {
            0nat
        },
        fire_count(s, ops.push(op)) == fire_count(s, ops) + if fires(run(s, ops), op) {
            1nat
        } else {
            0nat
        },
        well_ordered(s, ops.push(op)) <==> well_ordered(s, ops) && match op {
            Op::Arrive(_) => true,
            Op::Resume(id) => run(s, ops).arrived.contains(id),
        },
{
    assert(ops.push(op).drop_last() =~= ops);
}

/// Over any schedule the termination notice is sent at most once, however
/// many critical sections ask for it: the notices sent before the schedule
/// and those sent during it add up to the notices sent after it, which is
/// never more than one; and the schedule sends one exactly if the notice was
/// unsent before and at least one of its critical sections asks for it.
pub proof fn theorem_fires_at_most_once(s: ContextView, ops: Seq<Op>)
    ensures
        s.deliveries() + fire_count(s, ops) == run(s, ops).deliveries(),
        fire_count(s, ops) <= 1,
        fire_count(s, ops) == 1 <==> s.armed && request_count(s, ops) >= 1,
    decreases ops.len(),
{
    if ops.len() > 0 {
        theorem_fires_at_most_once(s, ops.drop_last());
    }
}

/// No critical section takes a check-in back or re-arms the signal, and a
/// handler writes no flag but that of its own participant.
pub proof fn theorem_no_step_goes_back(s: ContextView, op: Op)
    ensures
        s.arrived.subset_of(apply(s, op).arrived),
        apply(s, op).armed ==> s.armed,
        s.rendezvoused() ==> apply(s, op).rendezvoused(),
        forall|id: Participant|
            op != Op::Arrive(id) ==> (apply(s, op).arrived.contains(id) <==> s.arrived.contains(id)),
{
}

/// Over any schedule, check-ins are only added and the signal is never
/// re-armed.
pub proof fn theorem_no_schedule_goes_back(s: ContextView, ops: Seq<Op>)
    ensures
        s.arrived.subset_of(run(s, ops).arrived),
        run(s, ops).armed ==> s.armed,
        s.rendezvoused() ==> run(s, ops).rendezvoused(),
    decreases ops.len(),
{
    if ops.len() > 0 {
        theorem_no_schedule_goes_back(s, ops.drop_last());
    }
}

/// A rendezvous never goes unannounced. Every critical section that leaves
/// both participants checked in leaves the notice sent, whatever the state it
/// began in; so no schedule, whatever its order, leads from a state without
/// an unannounced rendezvous to one with it.
pub proof fn theorem_rendezvous_always_fires(s: ContextView, op: Op, ops: Seq<Op>)
    ensures
        apply(s, op).rendezvoused() ==> !apply(s, op).armed,
        (s.rendezvoused() ==> !s.armed) ==> (run(s, ops).rendezvoused() ==> !run(s, ops).armed),
{
}

/// Where handlers resume only after their own check-in, the notice is sent
/// at the very critical section that marks the second participant, neither
/// earlier nor later: a consistent state stays consistent.
pub proof fn theorem_consistency_is_kept(s: ContextView, ops: Seq<Op>)
    requires
        consistent(s),
        well_ordered(s, ops),
    ensures
        consistent(run(s, ops)),
    decreases ops.len(),
{
    if ops.len() > 0 {
        theorem_consistency_is_kept(s, ops.drop_last());
    }
}

/// Whether a handler of `id` checks in somewhere in `ops`.
pub open spec fn checks_in(ops: Seq<Op>, id: Participant) -> bool {
    exists|i: int| 0 <= i < ops.len() && #[trigger] ops[i] == Op::Arrive(id)
}

/// After a schedule, the participants that have checked in are those that
/// had checked in before it and those that check in during it, no others.
pub proof fn theorem_arrivals_are_the_check_ins(s: ContextView, ops: Seq<Op>, id: Participant)
    ensures
        run(s, ops).arrived.contains(id) <==> s.arrived.contains(id) || checks_in(ops, id),
    decreases ops.len(),
{
    if ops.len() > 0 {
        let before = ops.drop_last();
        theorem_arrivals_are_the_check_ins(s, before, id);
        if checks_in(before, id) {
            let i = choose|i: int| 0 <= i < before.len() && #[trigger] before[i] == Op::Arrive(id);
            assert(ops[i] == Op::Arrive(id));
        }
        if checks_in(ops, id) {
            let i = choose|i: int| 0 <= i < ops.len() && #[trigger] ops[i] == Op::Arrive(id);
            if i < before.len() {
                assert(before[i] == Op::Arrive(id));
            }
        }
    }
}

/// A handler that waits looks again when it resumes: it ends as rendezvoused
/// exactly if the counterpart had checked in before the handler did, or
/// checks in during the wait, whatever else happens in between.
pub proof fn theorem_wait_sees_a_later_check_in(
    s: ContextView,
    id: Participant,
    during: Seq<Op>,
)
    ensures
        resume_outcome(run(after_arrive(s, id), during), id) == Outcome::Rendezvoused
            <==> s.arrived.contains(id.counterpart()) || checks_in(during, id.counterpart()),
{
    theorem_arrivals_are_the_check_ins(after_arrive(s, id), during, id.counterpart());
}

/// From process start, whatever the interleaving of the handlers' critical
/// sections: the state stays consistent, and the notice is sent exactly once
/// if each participant checks in at least once, and not at all otherwise.
pub proof fn theorem_fires_exactly_when_both_arrive(ops: Seq<Op>)
    requires
        well_ordered(initial(), ops),
    ensures
        consistent(initial()),
        consistent(run(initial(), ops)),
        run(initial(), ops).rendezvoused() <==> checks_in(ops, Participant::A) && checks_in(
            ops,
            Participant::B,
        ),
        fire_count(initial(), ops) == if checks_in(ops, Participant::A) && checks_in(
            ops,
            Participant::B,
        ) {
            1nat
        } else {
            0nat
        },
{
    theorem_fires_at_most_once(initial(), ops);
    theorem_consistency_is_kept(initial(), ops);
    theorem_arrivals_are_the_check_ins(initial(), ops, Participant::A);
    theorem_arrivals_are_the_check_ins(initial(), ops, Participant::B);
}

/// When one participant checks in and the other follows while the first is
/// still waiting, in either order of the two: the first is told to wait, the
/// second completes at once, the first finds the second when it resumes, and
/// both end as rendezvoused. The notice is asked for twice and sent exactly
/// once, by the second.
pub proof fn theorem_rendezvous_in_either_order(
    s: ContextView,
    first: Participant,
    first_timeout: u64,
    second_timeout: u64,
)
    requires
        consistent(s),
        !s.arrived.contains(first.counterpart()),
    ensures
        ({
            let second = first.counterpart();
            let s1 = after_arrive(s, first);
            let s2 = after_arrive(s1, second);
            let s3 = after_resume(s2, first);
            let ops = seq![Op::Arrive(first), Op::Arrive(second), Op::Resume(first)];
            &&& arrive_step(s, first, first_timeout) == Step::Wait { timeout_secs: first_timeout }
            &&& arrive_step(s1, second, second_timeout) == Step::Complete(Outcome::Rendezvoused)
            &&& resume_outcome(s2, first) == Outcome::Rendezvoused
            &&& !fires(s, Op::Arrive(first))
            &&& fires(s1, Op::Arrive(second))
            &&& !fires(s2, Op::Resume(first))
            &&& run(s, ops) == s3
            &&& s3.rendezvoused()
            &&& request_count(s, ops) == 2
            &&& fire_count(s, ops) == 1
        }),
{
    let second = first.counterpart();
    let none = Seq::<Op>::empty();
    let one = none.push(Op::Arrive(first));
    let two = one.push(Op::Arrive(second));
    let three = two.push(Op::Resume(first));
    lemma_extend(s, none, Op::Arrive(first));
    lemma_extend(s, one, Op::Arrive(second));
    lemma_extend(s, two, Op::Resume(first));
    assert(three =~= seq![Op::Arrive(first), Op::Arrive(second), Op::Resume(first)]);
}

/// When a participant checks in and its counterpart has not: it is told to
/// wait, and when it resumes with the counterpart still missing it proceeds
/// alone, the state is as its check-in left it, and no notice is sent. The
/// counterpart can still check in afterwards: it then completes at once as
/// rendezvoused, and sends the notice if it is unsent.
pub proof fn theorem_lone_participant_proceeds(s: ContextView, id: Participant, timeout_secs: u64)
    requires
        !s.arrived.contains(id.counterpart()),
    ensures
        ({
            let s1 = after_arrive(s, id);
            let s2 = after_resume(s1, id);
            let ops = seq![Op::Arrive(id), Op::Resume(id)];
            &&& arrive_step(s, id, timeout_secs) == Step::Wait { timeout_secs }
            &&& resume_outcome(s1, id) == Outcome::ProceededAlone
            &&& s2 == s1
            &&& s2.armed == s.armed
            &&& run(s, ops) == s2
            &&& fire_count(s, ops) == 0
            &&& arrive_step(s2, id.counterpart(), timeout_secs) == Step::Complete(
                Outcome::Rendezvoused,
            )
            &&& fires(s2, Op::Arrive(id.counterpart())) == s.armed
            &&& after_arrive(s2, id.counterpart()).rendezvoused()
        }),
{
    let none = Seq::<Op>::empty();
    let one = none.push(Op::Arrive(id));
    let two = one.push(Op::Resume(id));
    lemma_extend(s, none, Op::Arrive(id));
    lemma_extend(s, one, Op::Resume(id));
    assert(two =~= seq![Op::Arrive(id), Op::Resume(id)]);
}

/// The critical sections of one whole call for `id` that begins in `s` and
/// that no other call interleaves with: the check-in, and the resumption
/// where the check-in had to wait.
pub open spec fn uninterrupted_call(s: ContextView, id: Participant) -> Seq<Op> {
    if s.arrived.contains(id.counterpart()) {
        seq![Op::Arrive(id)]
    } else {
        seq![Op::Arrive(id), Op::Resume(id)]
    }
}

/// How a whole call for `id` ends that begins in `s` and that no other call
/// interleaves with.
pub open spec fn uninterrupted_outcome(
    s: ContextView,
    id: Participant,
    timeout_secs: u64,
) -> Outcome {
    match arrive_step(s, id, timeout_secs) {
        Step::Complete(outcome) => outcome,
        Step::Wait { .. } => resume_outcome(after_arrive(s, id), id),
    }
}

/// Checking the same participant in twice in a row is the same as checking
/// it in once. The second check-in leaves the state as the first left it,
/// sees the counterpart as the first saw it, and sends no notice. The same
/// holds of two whole calls in a row: the second ends as the first did,
/// changes nothing and sends nothing.
pub proof fn theorem_repeated_arrival_is_idempotent(
    s: ContextView,
    id: Participant,
    timeout_secs: u64,
)
    ensures
        after_arrive(after_arrive(s, id), id) == after_arrive(s, id),
        arrive_step(after_arrive(s, id), id, timeout_secs) == arrive_step(s, id, timeout_secs),
        !fires(after_arrive(s, id), Op::Arrive(id)),
        fire_count(s, seq![Op::Arrive(id), Op::Arrive(id)]) == fire_count(s, seq![Op::Arrive(id)]),
        ({
            let once = run(s, uninterrupted_call(s, id));
            let again = uninterrupted_call(once, id);
            &&& once == after_arrive(s, id)
            &&& run(once, again) == once
            &&& fire_count(once, again) == 0
            &&& uninterrupted_outcome(once, id, timeout_secs) == uninterrupted_outcome(
                s,
                id,
                timeout_secs,
            )
            &&& fire_count(s, uninterrupted_call(s, id) + again) <= 1
        }),
{
    let s1 = after_arrive(s, id);
    assert(s1.arrived.insert(id) =~= s1.arrived);
    let none = Seq::<Op>::empty();
    let one = none.push(Op::Arrive(id));
    let two = one.push(Op::Arrive(id));
    let call = one.push(Op::Resume(id));
    lemma_extend(s, one, Op::Arrive(id));
    lemma_extend(s, one, Op::Resume(id));
    lemma_extend(s1, none, Op::Arrive(id));
    lemma_extend(s1, one, Op::Resume(id));
    assert(two =~= seq![Op::Arrive(id), Op::Arrive(id)]);
    assert(call =~= seq![Op::Arrive(id), Op::Resume(id)]);
    theorem_fires_at_most_once(s, uninterrupted_call(s, id) + uninterrupted_call(s1, id));
}

/// A resumption ends as rendezvoused exactly if the counterpart has checked
/// in by then, and resuming twice in a row is resuming once.
pub proof fn theorem_resume_rereads_the_counterpart(s: ContextView, id: Participant)
    ensures
        resume_outcome(s, id) == Outcome::Rendezvoused <==> s.arrived.contains(id.counterpart()),
        after_resume(after_resume(s, id), id) == after_resume(s, id),
{
}

/// The process only moves forward through waiting for both, waiting for one,
/// rendezvoused and terminated: neither a critical section of a handler nor
/// an event of the lifecycle takes it to an earlier state.
pub proof fn theorem_process_never_regresses(
    s: ContextView,
    phase: LifecyclePhase,
    op: Op,
    event: LifecycleEvent,
)
    ensures
        process_state_of(s, phase).rank() <= process_state_of(apply(s, op), phase).rank(),
        process_state_of(s, phase).rank() <= process_state_of(s, next_phase(phase, event)).rank(),
        process_state_of(s, phase) == ProcessState::Terminated ==> process_state_of(
            apply(s, op),
            next_phase(phase, event),
        ) == ProcessState::Terminated,
{
}

/// While only one participant has checked in, further calls for that same
/// participant, however many, leave the process waiting for the other one.
pub proof fn theorem_same_participant_keeps_waiting(
    s: ContextView,
    phase: LifecyclePhase,
    id: Participant,
    ops: Seq<Op>,
)
    requires
        process_state_of(s, phase) == ProcessState::WaitingOne,
        s.arrived.contains(id),
        forall|i: int|
            0 <= i < ops.len() ==> #[trigger] ops[i] == Op::Arrive(id) || ops[i] == Op::Resume(id),
    ensures
        process_state_of(run(s, ops), phase) == ProcessState::WaitingOne,
        run(s, ops).arrived == s.arrived,
        run(s, ops).armed == s.armed,
        fire_count(s, ops) == 0,
    decreases ops.len(),
{
    if ops.len() > 0 {
        theorem_same_participant_keeps_waiting(s, phase, id, ops.drop_last());
    }
}

/// The process terminates only out of the rendezvous: in a consistent state
/// in which the notice has been sent, both participants have checked in, and
/// the receipt of the notice takes the serving process from rendezvoused to
/// terminated, with the exit code of a shutdown.
pub proof fn theorem_termination_follows_rendezvous(s: ContextView)
    requires
        consistent(s),
        !s.armed,
    ensures
        process_state_of(s, LifecyclePhase::Serving) == ProcessState::Rendezvoused,
        process_state_of(s, next_phase(LifecyclePhase::Serving, LifecycleEvent::NoticeReceived))
            == ProcessState::Terminated,
        action_in(next_phase(LifecyclePhase::Serving, LifecycleEvent::NoticeReceived)) == Some(
            LifecycleAction::Exit { code: SHUTDOWN_EXIT_CODE },
        ),
{
}

/// Every check-in that completes is answered as a success, with or without
/// the counterpart, and only a fault is answered as a failure. The text of
/// the answer tells the three apart.
pub proof fn theorem_answers_tell_the_outcomes_apart(id: Participant)
    ensures
        status_of(Ok(Outcome::Rendezvoused)) == STATUS_OK,
        status_of(Ok(Outcome::ProceededAlone)) == STATUS_OK,
        status_of(Err(AccessFault)) == STATUS_INTERNAL_FAULT,
        body_of(id, Ok(Outcome::Rendezvoused)) != body_of(id, Ok(Outcome::ProceededAlone)),
        body_of(id, Ok(Outcome::Rendezvoused)) != body_of(id, Err(AccessFault)),
        body_of(id, Ok(Outcome::ProceededAlone)) != body_of(id, Err(AccessFault)),
{
    reveal_strlit(" completed");
    reveal_strlit(" completed: proceeded without ");
    reveal_strlit(" failed: shared state unavailable");
    let name = service_name(id);
    let met = body_of(id, Ok(Outcome::Rendezvoused));
    let alone = body_of(id, Ok(Outcome::ProceededAlone));
    let fault = body_of(id, Err(AccessFault));
    assert(met.len() == name.len() + 10);
    assert(alone.len() >= name.len() + 30);
    assert(fault.len() == name.len() + 33);
    assert(alone[name.len() as int + 1] == 'c');
    assert(fault[name.len() as int + 1] == 'f');
}

} // verus!
