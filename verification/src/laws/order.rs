//! The order in which a run asks for its calls.

use crate::laws::runs::{
    call_after, lemma_call_is_awaited, lemma_run_is_well_formed, lemma_step_by_stage, run, session_after,
};
use crate::model::{SessionView, StatusView};
use crate::plan::PlanView;
use crate::protocol::EventView;
use crate::stage::Operation;
use vstd::prelude::*;

verus! {

/// One outcome leads on in the workflow or, within the blob transfer and
/// within the manual update of a web-hosted identity, round again.
pub proof fn lemma_step_keeps_the_order(session: SessionView, event: EventView)
    requires
        session.well_formed(),
    ensures
        session.step(event).0.status matches StatusView::Awaiting(next) ==> {
            &&& session.status matches StatusView::Awaiting(op)
            &&& op.place() <= next.place()
            &&& op.place() == next.place() ==> op.comes_round() && next.comes_round()
        },
{
    lemma_step_by_stage(session, event);
}

/// The operations that a run awaits follow the order of the workflow: a
/// later one never has an earlier place, and it has the same place only
/// within the blob transfer or within the manual update of a web-hosted
/// identity.
pub proof fn lemma_operations_keep_their_order(plan: PlanView, events: Seq<EventView>, earlier: int)
    requires
        plan.well_formed(),
        0 <= earlier <= events.len(),
        session_after(plan, events).status is Awaiting,
    ensures
        session_after(plan, events.take(earlier)).status is Awaiting,
        ({
            let first = session_after(plan, events.take(earlier)).status->Awaiting_0;
            let second = session_after(plan, events).status->Awaiting_0;
            &&& first.place() <= second.place()
            &&& earlier < events.len() && first.place() == second.place() ==> first.comes_round()
                && second.comes_round()
        }),
    decreases events.len(),
{
    if earlier == events.len() {
        assert(events.take(earlier) =~= events);
    } else {
        let prefix = events.drop_last();
        assert(prefix.take(earlier) =~= events.take(earlier));
        assert(run(plan, events) == session_after(plan, prefix).step(events.last()));
        lemma_run_is_well_formed(plan, prefix);
        lemma_step_keeps_the_order(session_after(plan, prefix), events.last());
        lemma_operations_keep_their_order(plan, prefix, earlier);
    }
}

/// A call outside the blob transfer and outside the manual update of a
/// web-hosted identity is asked for at most once in a run: where a run
/// awaits the same operation at two points, the operation is one of those
/// that come round.
pub proof fn lemma_calls_are_not_repeated(plan: PlanView, events: Seq<EventView>, earlier: int, op: Operation)
    requires
        plan.well_formed(),
        0 <= earlier < events.len(),
        session_after(plan, events.take(earlier)).status == StatusView::Awaiting(op),
        session_after(plan, events).status == StatusView::Awaiting(op),
    ensures
        op.comes_round(),
{
    lemma_operations_keep_their_order(plan, events, earlier);
}

/// The same of the calls themselves: a call that a run asks for at two
/// points is one of those that come round. So the account is created once
/// and the service token shown once, the secret of the recovery key is
/// shown once, the signed update is submitted once, and activation and
/// deactivation are each asked for once.
pub proof fn lemma_call_is_asked_once(plan: PlanView, events: Seq<EventView>, earlier: int, op: Operation)
    requires
        plan.well_formed(),
        0 <= earlier < events.len(),
        call_after(plan, events.take(earlier)).operation() == Some(op),
        call_after(plan, events).operation() == Some(op),
    ensures
        op.comes_round(),
{
    lemma_call_is_awaited(plan, events.take(earlier));
    lemma_call_is_awaited(plan, events);
    lemma_calls_are_not_repeated(plan, events, earlier, op);
}

} // verus!
