//! Whole runs of a migration: what holds however the world answers.
//!
//! A run is a plan and the outcomes that the caller reported, in order. The
//! lemmas below are stated for every plan and every sequence of outcomes.

use crate::identity::DidMethod;
use crate::model::{SessionView, StatusView};
use crate::plan::PlanView;
use crate::protocol::{ActionView, EventView};
use crate::stage::{Operation, Stage};
use vstd::prelude::*;

verus! {

/// The session after the outcomes `events` of a migration of `plan`, and
/// the call that it asks for then.
pub open spec fn run(plan: PlanView, events: Seq<EventView>) -> (SessionView, ActionView)
    decreases events.len(),
{
    if events.len() == 0 {
        SessionView::start(plan)
    } else {
        run(plan, events.drop_last()).0.step(events.last())
    }
}

/// The session of a run.
pub open spec fn session_after(plan: PlanView, events: Seq<EventView>) -> SessionView {
    run(plan, events).0
}

/// The call that a run asks for.
pub open spec fn call_after(plan: PlanView, events: Seq<EventView>) -> ActionView {
    run(plan, events).1
}

/// A migration begins in a well-formed session.
pub proof fn lemma_start_is_well_formed(plan: PlanView)
    requires
        plan.well_formed(),
    ensures
        SessionView::start(plan).0.well_formed(),
{
}

/// No outcome leads a well-formed session to one that is not.
pub proof fn lemma_step_preserves_well_formed(session: SessionView, event: EventView)
    requires
        session.well_formed(),
    ensures
        session.step(event).0.well_formed(),
{
}

/// What `step` comes to for a session that awaits `op` and is told of an
/// outcome that is no failure: the passage that `op` belongs to.
pub proof fn lemma_step_by_stage(session: SessionView, event: EventView)
    ensures
        session.status matches StatusView::Awaiting(op) ==> !(event is Failed) ==> session.step(event)
            == (match op.goal() {
            Stage::Initial | Stage::Authenticated | Stage::IdentityResolved => session.establish(
                op,
                event,
            ),
            Stage::AccountProvisioned => session.provision(op, event),
            Stage::RepositoryMigrated | Stage::BlobsMigrated | Stage::PreferencesMigrated => session.transfer(
                op,
                event,
            ),
            Stage::IdentityTransitioned => session.transition_identity(op, event),
            Stage::Finalized => session.finalize(op, event),
        }),
{
}

/// No outcome changes the plan of a session.
pub proof fn lemma_step_keeps_the_plan(session: SessionView, event: EventView)
    ensures
        session.step(event).0.plan == session.plan,
{
    lemma_step_by_stage(session, event);
}

/// Every session of every run is well-formed, and it is a session of the
/// plan that the run began with.
pub proof fn lemma_run_is_well_formed(plan: PlanView, events: Seq<EventView>)
    requires
        plan.well_formed(),
    ensures
        session_after(plan, events).well_formed(),
        session_after(plan, events).plan == plan,
    decreases events.len(),
{
    if events.len() > 0 {
        lemma_run_is_well_formed(plan, events.drop_last());
        lemma_step_preserves_well_formed(session_after(plan, events.drop_last()), events.last());
    }
}

/// The call that a session asks for is the one whose outcome it awaits; a
/// session that has ended asks for nothing but to be left alone.
pub proof fn lemma_call_is_awaited(plan: PlanView, events: Seq<EventView>)
    ensures
        match session_after(plan, events).status {
            StatusView::Awaiting(op) => call_after(plan, events).operation() == Some(op),
            StatusView::Finished => call_after(plan, events) == ActionView::Finished,
            StatusView::Aborted(error) => call_after(plan, events) == (ActionView::Abort { error }),
        },
{
    if events.len() > 0 {
        let before = session_after(plan, events.drop_last());
        assert(run(plan, events) == before.step(events.last()));
    }
}

/// One outcome confirms at most one stage, and never takes one back.
pub proof fn lemma_step_moves_forward(session: SessionView, event: EventView)
    requires
        session.well_formed(),
    ensures
        session.stage.rank() <= session.step(event).0.stage.rank() <= session.stage.rank() + 1,
{
}

/// Stages are reached in their order: the stage of a run is never behind
/// the stage of an earlier point of the same run.
pub proof fn lemma_stage_never_goes_back(plan: PlanView, events: Seq<EventView>, earlier: int)
    requires
        plan.well_formed(),
        0 <= earlier <= events.len(),
    ensures
        session_after(plan, events.take(earlier)).stage.rank() <= session_after(plan, events).stage.rank(),
    decreases events.len(),
{
    if earlier == events.len() {
        assert(events.take(earlier) =~= events);
    } else {
        let prefix = events.drop_last();
        assert(prefix.take(earlier) =~= events.take(earlier));
        lemma_stage_never_goes_back(plan, prefix, earlier);
        lemma_run_is_well_formed(plan, prefix);
        lemma_step_moves_forward(session_after(plan, prefix), events.last());
    }
}

/// A session that has ended does not change and asks for no further call,
/// whatever it is told: after a failure nothing later is ever attempted.
pub proof fn lemma_ended_run_stays_ended(plan: PlanView, events: Seq<EventView>, more: Seq<EventView>)
    requires
        !(session_after(plan, events).status is Awaiting),
    ensures
        session_after(plan, events + more) == session_after(plan, events),
        call_after(plan, events + more).operation() is None,
    decreases more.len(),
{
    lemma_call_is_awaited(plan, events);
    if more.len() == 0 {
        assert(events + more =~= events);
    } else {
        assert((events + more).drop_last() =~= events + more.drop_last());
        assert((events + more).last() == more.last());
        lemma_ended_run_stays_ended(plan, events, more.drop_last());
    }
}

/// The source account is deactivated only as the answer to a successful
/// activation of the destination account: the call before was
/// `ActivateAccount`, and its outcome was success.
pub proof fn lemma_deactivation_follows_activation(plan: PlanView, events: Seq<EventView>)
    requires
        call_after(plan, events) is DeactivateAccount,
    ensures
        events.len() > 0,
        call_after(plan, events.drop_last()) is ActivateAccount,
        events.last() is Completed,
        call_after(plan, events) == (ActionView::DeactivateAccount { delete_after: None }),
{
    if events.len() > 0 {
        lemma_call_is_awaited(plan, events.drop_last());
    }
}

/// The destination account is activated only as the answer to the outcome
/// that completes the identity transition: the success of the signed
/// update, or a resolution of the account's DID that names the destination
/// server.
pub proof fn lemma_activation_follows_transition(plan: PlanView, events: Seq<EventView>)
    requires
        plan.well_formed(),
        call_after(plan, events) is ActivateAccount,
    ensures
        events.len() > 0,
        session_after(plan, events).stage == Stage::IdentityTransitioned,
        session_after(plan, events.drop_last()).stage == Stage::PreferencesMigrated,
        (call_after(plan, events.drop_last()) is SignIdentityOperation && events.last() is Completed)
            || (call_after(plan, events.drop_last()) is VerifyIdentity && (events.last() matches EventView::IdentityResolved {
            endpoint,
            ..
        } && endpoint == plan.destination_url)),
{
    if events.len() > 0 {
        let prefix = events.drop_last();
        lemma_run_is_well_formed(plan, prefix);
        lemma_call_is_awaited(plan, prefix);
        lemma_step_by_stage(session_after(plan, prefix), events.last());
    }
}

/// The destination account of a web-hosted identity is activated only as
/// the answer to a resolution of the account's DID that names the
/// destination server.
pub proof fn lemma_web_activation_follows_verification(plan: PlanView, events: Seq<EventView>)
    requires
        plan.well_formed(),
        call_after(plan, events) is ActivateAccount,
        session_after(plan, events).method() == DidMethod::Web,
    ensures
        events.len() > 0,
        call_after(plan, events.drop_last()) == (ActionView::VerifyIdentity {
            did: session_after(plan, events).did(),
        }),
        events.last() matches EventView::IdentityResolved { endpoint, .. } && endpoint
            == plan.destination_url,
{
    if events.len() > 0 {
        let prefix = events.drop_last();
        lemma_run_is_well_formed(plan, prefix);
        lemma_call_is_awaited(plan, prefix);
        lemma_verification_asks_for_the_account(plan, prefix);
    }
}

/// The one outcome that leaves a session waiting for a verification is the
/// operator's word that the document is published; the call is then the
/// resolution of the account's DID.
proof fn lemma_step_to_verification(session: SessionView, event: EventView)
    requires
        session.step(event).0.status == StatusView::Awaiting(Operation::VerifyIdentity),
    ensures
        session.status == StatusView::Awaiting(Operation::PublishIdentityDocument),
        event is Completed,
        session.step(event) == session.ask(ActionView::VerifyIdentity { did: session.did() }),
{
    lemma_step_by_stage(session, event);
}

/// While the outcome of a verification is awaited, the call that is under
/// way resolves the DID of the account.
pub proof fn lemma_verification_asks_for_the_account(plan: PlanView, events: Seq<EventView>)
    requires
        session_after(plan, events).status == StatusView::Awaiting(Operation::VerifyIdentity),
    ensures
        call_after(plan, events) == (ActionView::VerifyIdentity {
            did: session_after(plan, events).did(),
        }),
{
    if events.len() > 0 {
        lemma_step_to_verification(session_after(plan, events.drop_last()), events.last());
    }
}

} // verus!
