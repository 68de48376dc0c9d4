//! How a run comes by the account on the destination server.

use crate::model::{SessionView, StatusView};
use crate::plan::PlanView;
use crate::protocol::{ActionView, EventView};
use crate::laws::runs::{lemma_step_by_stage, call_after, lemma_call_is_awaited, lemma_run_is_well_formed, run, session_after};
use crate::stage::{Operation, Stage};
use crate::token::{create_account_operation, ServiceTokenView};
use vstd::prelude::*;

verus! {

/// The one way into the issuing of the token and into the creation of the
/// account: which step came before, which outcome led on, and what the
/// session keeps of it.
proof fn lemma_step_into(session: SessionView, event: EventView)
    ensures
        ({
            let next = session.step(event);
            match next.0.status {
                StatusView::Awaiting(Operation::CreateAccount) => {
                    &&& session.status == StatusView::Awaiting(Operation::IssueServiceAuth)
                    &&& event matches EventView::ServiceAuthIssued { token }
                    &&& next.0.service_token == Some(
                        ServiceTokenView {
                            audience: session.destination_did->0,
                            operation: create_account_operation(),
                            expiry: None,
                            bearer: token,
                        },
                    )
                    &&& next.1 == session.create_account(token)
                },
                StatusView::Awaiting(Operation::IssueServiceAuth) => {
                    &&& session.status == StatusView::Awaiting(Operation::DescribeServer)
                    &&& event matches EventView::ServerDescribed { did }
                    &&& next.0.destination_did == Some(did)
                    &&& next.1 == (ActionView::IssueServiceAuth {
                        audience: did,
                        operation: create_account_operation(),
                        expiry: None,
                    })
                },
                _ => true,
            }
        }),
{
    lemma_step_by_stage(session, event);
}

/// Whenever a run asks for the creation of the account, its last two
/// outcomes were the DID of the destination server and a token that the
/// source server issued for the creation of an account on that server. The
/// call is made by that token, and the session holds the token for exactly
/// that server and that operation.
pub proof fn lemma_account_is_created_by_the_issued_token(plan: PlanView, events: Seq<EventView>)
    requires
        call_after(plan, events) is CreateAccount,
    ensures
        events.len() >= 2,
        ({
            let n = events.len() as int;
            &&& events[n - 2] matches EventView::ServerDescribed { did }
            &&& events[n - 1] matches EventView::ServiceAuthIssued { token }
            &&& call_after(plan, events.drop_last()) == (ActionView::IssueServiceAuth {
                audience: did,
                operation: create_account_operation(),
                expiry: None,
            })
            &&& call_after(plan, events)->CreateAccount_session.token == token
            &&& session_after(plan, events).service_token matches Some(held)
            &&& held.bearer == token
            &&& held.authorizes(did, create_account_operation())
        }),
{
    let n = events.len() as int;
    lemma_call_is_awaited(plan, events);
    assert(events.take(n) =~= events);
    assert(events.take(n - 1) =~= events.drop_last());
    assert(n >= 1);
    assert(events.take(n).drop_last() =~= events.take(n - 1));
    lemma_step_into(session_after(plan, events.take(n - 1)), events[n - 1]);
    assert(n >= 2);
    assert(events.take(n - 1).drop_last() =~= events.take(n - 2));
    assert(events.take(n - 1).last() == events[n - 2]);
    lemma_step_into(session_after(plan, events.take(n - 2)), events[n - 2]);
}

/// A session holds a service token while the creation of the account is
/// under way, and at no other time: the token is not kept past the one call
/// that it was issued for.
pub proof fn lemma_token_is_held_for_one_call(plan: PlanView, events: Seq<EventView>)
    requires
        plan.well_formed(),
    ensures
        session_after(plan, events).service_token is Some <==> session_after(plan, events).status
            == StatusView::Awaiting(Operation::CreateAccount),
{
    lemma_run_is_well_formed(plan, events);
}

/// A session holds the secret of the recovery key from the making of the
/// key until the operator has confirmed that it is stored, and at no other
/// time.
pub proof fn lemma_recovery_secret_is_dropped(plan: PlanView, events: Seq<EventView>)
    requires
        plan.well_formed(),
    ensures
        session_after(plan, events).recovery is Some <==> (session_after(plan, events).status
            matches StatusView::Awaiting(op) && op.holds_recovery_key()),
{
    lemma_run_is_well_formed(plan, events);
}

} // verus!
