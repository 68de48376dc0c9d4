//! What a run submits when it changes a directory-based identity.

use crate::keys::{
    lemma_rotation_keys_are_new_recommended_and_earlier, rotation_key_list, RecoveryKeypairView,
};
use crate::model::{SessionView, StatusView};
use crate::plan::PlanView;
use crate::protocol::{ActionView, EventView};
use crate::laws::runs::{lemma_step_by_stage, call_after, lemma_call_is_awaited, run, session_after};
use crate::stage::{Operation, Stage};
use vstd::prelude::*;

verus! {

/// The one way into each step of the signed update: which step came
/// before, which outcome led on, and what the session keeps of it.
proof fn lemma_step_into(session: SessionView, event: EventView)
    ensures
        ({
            let next = session.step(event).0;
            match next.status {
                StatusView::Awaiting(Operation::SignIdentityOperation) => {
                    &&& session.status == StatusView::Awaiting(Operation::RevealRecoveryKey)
                    &&& event is Completed
                    &&& session.step(event).1 == session.signed_update()
                },
                StatusView::Awaiting(Operation::RevealRecoveryKey) => {
                    &&& session.status == StatusView::Awaiting(Operation::PromptChallengeToken)
                    &&& event matches EventView::ChallengeTokenEntered { token }
                    &&& next.challenge == Some(token)
                    &&& next.recovery == session.recovery
                    &&& next.earlier_keys == session.earlier_keys
                    &&& next.credentials == session.credentials
                },
                StatusView::Awaiting(Operation::PromptChallengeToken) => {
                    &&& session.status == StatusView::Awaiting(Operation::RequestIdentityChallenge)
                    &&& event is Completed
                    &&& next.recovery == session.recovery
                    &&& next.earlier_keys == session.earlier_keys
                    &&& next.credentials == session.credentials
                },
                StatusView::Awaiting(Operation::RequestIdentityChallenge) => {
                    &&& session.status == StatusView::Awaiting(Operation::GenerateRecoveryKey)
                    &&& event matches EventView::RecoveryKeyGenerated { keypair }
                    &&& next.recovery == Some(keypair)
                    &&& next.earlier_keys == session.earlier_keys
                    &&& next.credentials == session.credentials
                },
                StatusView::Awaiting(Operation::GenerateRecoveryKey) => {
                    &&& session.status == StatusView::Awaiting(Operation::ReadRotationKeys)
                    &&& event matches EventView::RotationKeysRead { keys }
                    &&& next.earlier_keys == Some(keys)
                    &&& next.credentials == session.credentials
                },
                StatusView::Awaiting(Operation::ReadRotationKeys) => {
                    &&& session.status == StatusView::Awaiting(
                        Operation::GetRecommendedIdentityCredentials,
                    )
                    &&& event matches EventView::CredentialsRecommended { credentials }
                    &&& next.credentials == Some(credentials)
                    &&& session.step(event).1 == (ActionView::ReadRotationKeys { did: session.did() })
                },
                _ => true,
            }
        }),
{
    lemma_step_by_stage(session, event);
}

/// A run up to its outcome `k` is the run up to the outcome before, and
/// one step.
proof fn lemma_run_unfolds(plan: PlanView, events: Seq<EventView>, k: int)
    requires
        0 <= k < events.len(),
    ensures
        run(plan, events.take(k + 1)) == session_after(plan, events.take(k)).step(events[k]),
{
    assert(events.take(k + 1).drop_last() =~= events.take(k));
    assert(events.take(k + 1).last() == events[k]);
}

/// No run begins in a step of the signed update.
proof fn lemma_first_call(plan: PlanView)
    ensures
        session_after(plan, Seq::empty()).status == StatusView::Awaiting(Operation::AuthenticateSource),
{
}

/// Whenever a run submits a signed update, its last six outcomes were the
/// credentials that the destination recommends, the rotation keys that the
/// identity had until then, a new recovery key, the sending of a challenge,
/// the operator's challenge token, and the operator's word that the
/// recovery key is stored. What is submitted are those credentials and that
/// token; the rotation keys are the new key, the recommended keys and the
/// earlier keys, each once and in that order.
pub proof fn lemma_signed_update_is_built_from_the_run(plan: PlanView, events: Seq<EventView>)
    requires
        call_after(plan, events) is SignIdentityOperation,
    ensures
        events.len() >= 6,
        ({
            let n = events.len() as int;
            &&& events[n - 6] matches EventView::CredentialsRecommended { credentials }
            &&& events[n - 5] matches EventView::RotationKeysRead { keys }
            &&& events[n - 4] matches EventView::RecoveryKeyGenerated { keypair }
            &&& events[n - 3] is Completed
            &&& events[n - 2] matches EventView::ChallengeTokenEntered { token }
            &&& events[n - 1] is Completed
            &&& call_after(plan, events) == (ActionView::SignIdentityOperation {
                also_known_as: credentials.also_known_as,
                rotation_keys: rotation_key_list(keypair.did_key, credentials.rotation_keys, keys),
                services: credentials.services,
                verification_methods: credentials.verification_methods,
                token,
            })
            &&& call_after(plan, events.take(n - 5)) is ReadRotationKeys
        }),
{
    let n = events.len() as int;
    lemma_call_is_awaited(plan, events);
    lemma_first_call(plan);
    assert(events.take(n) =~= events);
    assert(events.take(0) =~= Seq::<EventView>::empty());
    assert(n >= 1);
    lemma_run_unfolds(plan, events, n - 1);
    lemma_step_into(session_after(plan, events.take(n - 1)), events[n - 1]);
    assert(n >= 2);
    lemma_run_unfolds(plan, events, n - 2);
    lemma_step_into(session_after(plan, events.take(n - 2)), events[n - 2]);
    assert(n >= 3);
    lemma_run_unfolds(plan, events, n - 3);
    lemma_step_into(session_after(plan, events.take(n - 3)), events[n - 3]);
    assert(n >= 4);
    lemma_run_unfolds(plan, events, n - 4);
    lemma_step_into(session_after(plan, events.take(n - 4)), events[n - 4]);
    assert(n >= 5);
    lemma_run_unfolds(plan, events, n - 5);
    lemma_step_into(session_after(plan, events.take(n - 5)), events[n - 5]);
    assert(n >= 6);
    lemma_run_unfolds(plan, events, n - 6);
    lemma_step_into(session_after(plan, events.take(n - 6)), events[n - 6]);
}

/// The rotation keys of a signed update are, as a set, the new recovery
/// key, the rotation keys of the recommended credentials, and the rotation
/// keys that the identity had before the update: none is lost and none is
/// added. None is submitted twice, and the new key comes first.
pub proof fn lemma_submitted_keys_are_new_recommended_and_earlier(plan: PlanView, events: Seq<EventView>)
    requires
        call_after(plan, events) is SignIdentityOperation,
    ensures
        events.len() >= 6,
        ({
            let submitted = call_after(plan, events)->SignIdentityOperation_rotation_keys;
            let new_key = events[events.len() - 4]->RecoveryKeyGenerated_keypair.did_key;
            let earlier = events[events.len() - 5]->RotationKeysRead_keys;
            let recommended = events[events.len() - 6]->CredentialsRecommended_credentials.rotation_keys;
            &&& submitted[0] == new_key
            &&& submitted.no_duplicates()
            &&& submitted.to_set() == (match recommended {
                Some(keys) => keys.to_set(),
                None => Set::empty(),
            }).union(earlier.to_set()).insert(new_key)
        }),
{
    lemma_signed_update_is_built_from_the_run(plan, events);
    lemma_rotation_keys_are_new_recommended_and_earlier(
        events[events.len() - 4]->RecoveryKeyGenerated_keypair.did_key,
        events[events.len() - 6]->CredentialsRecommended_credentials.rotation_keys,
        events[events.len() - 5]->RotationKeysRead_keys,
    );
}

/// The signed update does not depend on the secret of the recovery key:
/// a run that was told of another secret for the same public key submits
/// the same update. The secret is shown to the operator and sent nowhere.
pub proof fn lemma_signed_update_does_not_depend_on_the_secret(
    plan: PlanView,
    events: Seq<EventView>,
    secret: Seq<u8>,
)
    requires
        call_after(plan, events) is SignIdentityOperation,
    ensures
        events.len() >= 6,
        call_after(
            plan,
            events.update(
                events.len() - 4,
                EventView::RecoveryKeyGenerated {
                    keypair: RecoveryKeypairView {
                        secret,
                        did_key: events[events.len() - 4]->RecoveryKeyGenerated_keypair.did_key,
                    },
                },
            ),
        ) == call_after(plan, events),
{
    let n = events.len() as int;
    lemma_signed_update_is_built_from_the_run(plan, events);
    let made = events[n - 4]->RecoveryKeyGenerated_keypair;
    let told = EventView::RecoveryKeyGenerated {
        keypair: RecoveryKeypairView { secret, did_key: made.did_key },
    };
    let other = events.update(n - 4, told);
    lemma_call_is_awaited(plan, events);
    assert(events.take(n) =~= events);
    assert(other.take(n) =~= other);
    assert(other.take(n - 4) =~= events.take(n - 4));
    lemma_run_unfolds(plan, events, n - 1);
    lemma_step_into(session_after(plan, events.take(n - 1)), events[n - 1]);
    lemma_run_unfolds(plan, events, n - 2);
    lemma_step_into(session_after(plan, events.take(n - 2)), events[n - 2]);
    lemma_run_unfolds(plan, events, n - 3);
    lemma_step_into(session_after(plan, events.take(n - 3)), events[n - 3]);
    lemma_run_unfolds(plan, events, n - 4);
    lemma_step_into(session_after(plan, events.take(n - 4)), events[n - 4]);
    let before = session_after(plan, events.take(n - 4));
    let a3 = session_after(plan, events.take(n - 3));
    let b3 = session_after(plan, other.take(n - 3));
    lemma_run_unfolds(plan, other, n - 4);
    lemma_step_by_stage(before, events[n - 4]);
    lemma_step_by_stage(before, told);
    assert(b3 == SessionView { recovery: Some(RecoveryKeypairView { secret, did_key: made.did_key }), ..a3 });
    let a2 = session_after(plan, events.take(n - 2));
    let b2 = session_after(plan, other.take(n - 2));
    lemma_run_unfolds(plan, other, n - 3);
    lemma_step_by_stage(a3, events[n - 3]);
    lemma_step_by_stage(b3, events[n - 3]);
    assert(b2 == SessionView { recovery: b3.recovery, ..a2 });
    let a1 = session_after(plan, events.take(n - 1));
    let b1 = session_after(plan, other.take(n - 1));
    lemma_run_unfolds(plan, other, n - 2);
    lemma_step_by_stage(a2, events[n - 2]);
    lemma_step_by_stage(b2, events[n - 2]);
    assert(b1 == SessionView { recovery: b3.recovery, ..a1 });
    lemma_run_unfolds(plan, other, n - 1);
    lemma_step_by_stage(a1, events[n - 1]);
    lemma_step_by_stage(b1, events[n - 1]);
}

} // verus!
