//! What a run does to the blobs that the source server lists.
//!
//! The lemmas speak of three sequences that a run leaves behind: the content
//! IDs that were listed, those that were asked to be fetched, and those that
//! were asked to be uploaded, each in the order of the run.

use crate::model::{SessionView, StatusView};
use crate::plan::PlanView;
use crate::protocol::{ActionView, EventView};
use crate::laws::runs::{call_after, lemma_run_is_well_formed, run, session_after};
use crate::stage::{Operation, Stage};
use vstd::prelude::*;

verus! {

/// The content IDs that an outcome lists: those of a page, where the
/// session awaits one.
pub open spec fn listing(session: SessionView, event: EventView) -> Seq<Seq<char>> {
    match (session.status, event) {
        (StatusView::Awaiting(Operation::ListBlobs), EventView::BlobsListed { content_ids, .. }) => content_ids,
        _ => Seq::empty(),
    }
}

/// The content ID that a call asks to fetch, if it is a fetch.
pub open spec fn fetch_of(action: ActionView) -> Seq<Seq<char>> {
    match action {
        ActionView::FetchBlob { content_id, .. } => seq![content_id],
        _ => Seq::empty(),
    }
}

/// The content ID that a call asks to upload, if it is an upload.
pub open spec fn upload_of(action: ActionView) -> Seq<Seq<char>> {
    match action {
        ActionView::UploadBlob { content_id, .. } => seq![content_id],
        _ => Seq::empty(),
    }
}

/// The content IDs that the source server listed in a run, page after page.
pub open spec fn listed(plan: PlanView, events: Seq<EventView>) -> Seq<Seq<char>>
    decreases events.len(),
{
    if events.len() == 0 {
        Seq::empty()
    } else {
        listed(plan, events.drop_last()) + listing(session_after(plan, events.drop_last()), events.last())
    }
}

/// The content IDs that a run asked to fetch, call after call.
pub open spec fn fetched(plan: PlanView, events: Seq<EventView>) -> Seq<Seq<char>>
    decreases events.len(),
{
    if events.len() == 0 {
        Seq::empty()
    } else {
        fetched(plan, events.drop_last()) + fetch_of(call_after(plan, events))
    }
}

/// The content IDs that a run asked to upload, call after call.
pub open spec fn uploaded(plan: PlanView, events: Seq<EventView>) -> Seq<Seq<char>>
    decreases events.len(),
{
    if events.len() == 0 {
        Seq::empty()
    } else {
        uploaded(plan, events.drop_last()) + upload_of(call_after(plan, events))
    }
}

/// How the three sequences of a run stand to its session.
pub open spec fn in_step(plan: PlanView, events: Seq<EventView>) -> bool {
    let session = session_after(plan, events);
    let listed = listed(plan, events);
    let fetched = fetched(plan, events);
    let uploaded = uploaded(plan, events);
    let rest = session.blobs.page.skip(session.blobs.position as int + 1);
    &&& uploaded.is_prefix_of(fetched)
    &&& fetched.is_prefix_of(listed)
    &&& fetched.len() <= uploaded.len() + 1
    &&& session.stage.rank() < Stage::RepositoryMigrated.rank() ==> listed.len() == 0
    &&& session.stage.rank() > Stage::RepositoryMigrated.rank() ==> fetched == listed && uploaded
        == listed
    &&& session.stage == Stage::RepositoryMigrated ==> match session.status {
        StatusView::Awaiting(Operation::FetchBlob) => {
            &&& listed == fetched + rest
            &&& fetched.len() > 0
            &&& fetched.last() == session.blobs.current()
            &&& uploaded == fetched.drop_last()
        },
        StatusView::Awaiting(Operation::UploadBlob) => {
            &&& listed == fetched + rest
            &&& fetched.len() > 0
            &&& fetched.last() == session.blobs.current()
            &&& uploaded == fetched
        },
        StatusView::Awaiting(_) => {
            &&& !session.blobs.has_current()
            &&& listed == fetched
            &&& uploaded == fetched
        },
        _ => true,
    }
}

/// The step from a session that goes on with the blob transfer.
proof fn lemma_continue_blobs(session: SessionView)
    requires
        session.blobs.well_formed(),
    ensures
        ({
            let next = session.continue_blobs();
            &&& next.0.blobs == session.blobs
            &&& session.blobs.has_current() ==> next.0.status == StatusView::Awaiting(
                Operation::FetchBlob,
            ) && next.0.stage == session.stage && fetch_of(next.1) == seq![session.blobs.current()]
            &&& !session.blobs.has_current() ==> fetch_of(next.1).len() == 0 && (next.0.status
                == StatusView::Awaiting(Operation::ListBlobs) && next.0.stage == session.stage
                || next.0.stage == Stage::BlobsMigrated)
            &&& upload_of(next.1).len() == 0
        }),
{
}

proof fn lemma_in_step_holds(plan: PlanView, events: Seq<EventView>)
    requires
        plan.well_formed(),
    ensures
        in_step(plan, events),
    decreases events.len(),
{
    if events.len() > 0 {
        let prefix = events.drop_last();
        let event = events.last();
        lemma_in_step_holds(plan, prefix);
        lemma_run_is_well_formed(plan, prefix);
        lemma_run_is_well_formed(plan, events);
        let before = session_after(plan, prefix);
        let after = session_after(plan, events);
        let call = call_after(plan, events);
        assert(run(plan, events) == before.step(event));
        let l0 = listed(plan, prefix);
        let f0 = fetched(plan, prefix);
        let u0 = uploaded(plan, prefix);
        let l1 = listed(plan, events);
        let f1 = fetched(plan, events);
        let u1 = uploaded(plan, events);
        assert(l1 == l0 + listing(before, event));
        assert(f1 == f0 + fetch_of(call));
        assert(u1 == u0 + upload_of(call));
        match before.status {
            StatusView::Awaiting(op) => {
                if event is Failed {
                    assert(l1 =~= l0 && f1 =~= f0 && u1 =~= u0);
                } else {
                    match op.goal() {
                        Stage::Initial | Stage::Authenticated | Stage::IdentityResolved => {
                            assert(before.step(event) == before.establish(op, event));
                            assert(l1 =~= l0 && f1 =~= f0 && u1 =~= u0);
                        },
                        Stage::AccountProvisioned => {
                            assert(before.step(event) == before.provision(op, event));
                            assert(l1 =~= l0 && f1 =~= f0 && u1 =~= u0);
                        },
                        Stage::RepositoryMigrated | Stage::BlobsMigrated | Stage::PreferencesMigrated => {
                            assert(before.step(event) == before.transfer(op, event));
                            lemma_in_step_transfer(plan, events, op);
                        },
                        Stage::IdentityTransitioned => {
                            assert(before.step(event) == before.transition_identity(op, event));
                            assert(l1 =~= l0 && f1 =~= f0 && u1 =~= u0);
                        },
                        Stage::Finalized => {
                            assert(before.step(event) == before.finalize(op, event));
                            assert(l1 =~= l0 && f1 =~= f0 && u1 =~= u0);
                        },
                    }
                }
            },
            _ => {
                assert(l1 =~= l0 && f1 =~= f0 && u1 =~= u0);
            },
        }
    }
}

#[verifier::rlimit(60)]
proof fn lemma_in_step_transfer(plan: PlanView, events: Seq<EventView>, op: Operation)
    requires
        plan.well_formed(),
        events.len() > 0,
        in_step(plan, events.drop_last()),
        session_after(plan, events.drop_last()).well_formed(),
        session_after(plan, events).well_formed(),
        session_after(plan, events.drop_last()).status == StatusView::Awaiting(op),
        !(events.last() is Failed),
        op.goal() == Stage::RepositoryMigrated || op.goal() == Stage::BlobsMigrated || op.goal()
            == Stage::PreferencesMigrated,
        run(plan, events) == session_after(plan, events.drop_last()).transfer(op, events.last()),
    ensures
        in_step(plan, events),
{
    let prefix = events.drop_last();
    let event = events.last();
    let before = session_after(plan, prefix);
    let after = session_after(plan, events);
    let call = call_after(plan, events);
    let l0 = listed(plan, prefix);
    let f0 = fetched(plan, prefix);
    let u0 = uploaded(plan, prefix);
    let l1 = listed(plan, events);
    let f1 = fetched(plan, events);
    let u1 = uploaded(plan, events);
    assert(l1 == l0 + listing(before, event));
    assert(f1 == f0 + fetch_of(call));
    assert(u1 == u0 + upload_of(call));
    match (op, event) {
        (Operation::ListBlobs, EventView::BlobsListed { content_ids, cursor }) => {
            let turned = SessionView { blobs: before.blobs.page_listed(content_ids, cursor), ..before };
            lemma_continue_blobs(turned);
            assert(l1 == l0 + content_ids);
            assert(u1 =~= u0);
            if turned.blobs.has_current() {
                assert(content_ids =~= seq![content_ids[0]] + content_ids.skip(1));
                assert(l1 =~= f1 + after.blobs.page.skip(after.blobs.position as int + 1));
                assert(f1.drop_last() =~= f0);
            } else {
                assert(content_ids =~= Seq::empty());
                assert(l1 =~= l0 && f1 =~= f0);
            }
        },
        (Operation::FetchBlob, EventView::BlobFetched { payload }) => {
            assert(l1 =~= l0 && f1 =~= f0);
            assert(u1 =~= f0.drop_last() + seq![f0.last()]);
            assert(u1 =~= f1);
        },
        (Operation::UploadBlob, EventView::Completed) => {
            let turned = SessionView { blobs: before.blobs.blob_uploaded(), ..before };
            lemma_continue_blobs(turned);
            assert(l1 =~= l0);
            assert(u1 =~= u0);
            let page = before.blobs.page;
            let position = before.blobs.position as int;
            if turned.blobs.has_current() {
                assert(page.skip(position + 1) =~= seq![page[position + 1]] + page.skip(position + 2));
                assert(l1 =~= f1 + after.blobs.page.skip(after.blobs.position as int + 1));
                assert(f1.drop_last() =~= f0);
            } else {
                assert(page.skip(position + 1) =~= Seq::empty());
                assert(f1 =~= f0);
                assert(l1 =~= f1);
            }
        },
        _ => {
            assert(l1 =~= l0 && f1 =~= f0 && u1 =~= u0);
        },
    }
}

/// At every point of every run, the blobs asked to be fetched are the first
/// of the blobs listed, in the order of the listing, and the blobs asked to
/// be uploaded are the blobs fetched, but for the one whose fetch is under
/// way: nothing is skipped, reordered, or fetched before the upload of the
/// one before it was asked for.
pub proof fn lemma_blobs_are_visited_in_listed_order(plan: PlanView, events: Seq<EventView>)
    requires
        plan.well_formed(),
    ensures
        fetched(plan, events).is_prefix_of(listed(plan, events)),
        uploaded(plan, events).is_prefix_of(fetched(plan, events)),
        fetched(plan, events).len() <= uploaded(plan, events).len() + 1,
{
    lemma_in_step_holds(plan, events);
}

/// Once the blobs count as migrated, every content ID that the source
/// server listed was fetched once and uploaded once for each time that it
/// was listed, in the order of the listing.
pub proof fn lemma_every_listed_blob_is_transferred_once(plan: PlanView, events: Seq<EventView>)
    requires
        plan.well_formed(),
        session_after(plan, events).stage.rank() >= Stage::BlobsMigrated.rank(),
    ensures
        fetched(plan, events) == listed(plan, events),
        uploaded(plan, events) == listed(plan, events),
{
    lemma_in_step_holds(plan, events);
}

/// Before the repository is migrated no blob is listed, fetched or uploaded.
pub proof fn lemma_no_blob_moves_before_the_repository(plan: PlanView, events: Seq<EventView>)
    requires
        plan.well_formed(),
        session_after(plan, events).stage.rank() < Stage::RepositoryMigrated.rank(),
    ensures
        listed(plan, events).len() == 0,
        fetched(plan, events).len() == 0,
        uploaded(plan, events).len() == 0,
{
    lemma_in_step_holds(plan, events);
}

} // verus!
