//! How a run pages through the blobs of an account.
//!
//! The lemmas speak of two sequences that a run leaves behind: the cursors
//! that it asked pages for, and the cursors that came back with the pages.

use crate::model::{SessionView, StatusView};
use crate::plan::PlanView;
use crate::protocol::{ActionView, EventView};
use crate::laws::runs::{call_after, lemma_run_is_well_formed, run, session_after};
use crate::stage::{Operation, Stage};
use vstd::prelude::*;

verus! {

/// The cursor that an outcome brings: that of a page, where the session
/// awaits one.
pub open spec fn cursor_of(session: SessionView, event: EventView) -> Seq<Option<Seq<char>>> {
    match (session.status, event) {
        (StatusView::Awaiting(Operation::ListBlobs), EventView::BlobsListed { cursor, .. }) => seq![cursor],
        _ => Seq::empty(),
    }
}

/// The cursor that a call asks a page for, if it asks for a page.
pub open spec fn page_asked_by(action: ActionView) -> Seq<Option<Seq<char>>> {
    match action {
        ActionView::ListBlobs { cursor, .. } => seq![cursor],
        _ => Seq::empty(),
    }
}

/// The cursors that came back with the pages of a run, page after page.
pub open spec fn cursors_returned(plan: PlanView, events: Seq<EventView>) -> Seq<Option<Seq<char>>>
    decreases events.len(),
{
    if events.len() == 0 {
        Seq::empty()
    } else {
        cursors_returned(plan, events.drop_last()) + cursor_of(
            session_after(plan, events.drop_last()),
            events.last(),
        )
    }
}

/// The cursors that a run asked pages for, call after call.
pub open spec fn cursors_asked(plan: PlanView, events: Seq<EventView>) -> Seq<Option<Seq<char>>>
    decreases events.len(),
{
    if events.len() == 0 {
        Seq::empty()
    } else {
        cursors_asked(plan, events.drop_last()) + page_asked_by(call_after(plan, events))
    }
}

/// The first page is asked for without a cursor, and each later page with
/// the cursor that came back with the page before it.
pub open spec fn follows(asked: Seq<Option<Seq<char>>>, returned: Seq<Option<Seq<char>>>) -> bool {
    &&& asked.len() <= returned.len() + 1
    &&& returned.len() <= asked.len()
    &&& asked.len() > 0 ==> asked[0] is None
    &&& forall|k: int|
        0 <= k < asked.len() - 1 ==> (#[trigger] returned[k]) is Some && asked[k + 1] == returned[k]
}

/// How the two sequences of a run stand to its session.
pub open spec fn on_track(plan: PlanView, events: Seq<EventView>) -> bool {
    let session = session_after(plan, events);
    let asked = cursors_asked(plan, events);
    let returned = cursors_returned(plan, events);
    &&& follows(asked, returned)
    &&& session.stage.rank() < Stage::RepositoryMigrated.rank() ==> asked.len() == 0
    &&& session.stage.rank() > Stage::RepositoryMigrated.rank() ==> returned.len() == asked.len()
        && returned.len() > 0 && returned.last() is None
    &&& session.stage == Stage::RepositoryMigrated ==> match session.status {
        StatusView::Awaiting(Operation::ListBlobs) => asked.len() == returned.len() + 1,
        StatusView::Awaiting(_) => {
            &&& asked.len() == returned.len()
            &&& returned.len() > 0
            &&& returned.last() == session.blobs.cursor
        },
        _ => true,
    }
}

/// The step from a session that goes on with the blob transfer.
proof fn lemma_continue_blobs(session: SessionView)
    ensures
        ({
            let next = session.continue_blobs();
            &&& next.0.blobs == session.blobs
            &&& session.blobs.has_current() ==> next.0.status == StatusView::Awaiting(
                Operation::FetchBlob,
            ) && next.0.stage == session.stage && page_asked_by(next.1).len() == 0
            &&& !session.blobs.has_current() && session.blobs.cursor is Some ==> next.0.status
                == StatusView::Awaiting(Operation::ListBlobs) && next.0.stage == session.stage
                && page_asked_by(next.1) == seq![session.blobs.cursor]
            &&& !session.blobs.has_current() && session.blobs.cursor is None ==> next.0.stage
                == Stage::BlobsMigrated && page_asked_by(next.1).len() == 0
        }),
{
}

proof fn lemma_on_track_holds(plan: PlanView, events: Seq<EventView>)
    requires
        plan.well_formed(),
    ensures
        on_track(plan, events),
    decreases events.len(),
{
    if events.len() > 0 {
        let prefix = events.drop_last();
        let event = events.last();
        lemma_on_track_holds(plan, prefix);
        lemma_run_is_well_formed(plan, prefix);
        lemma_run_is_well_formed(plan, events);
        let before = session_after(plan, prefix);
        let call = call_after(plan, events);
        assert(run(plan, events) == before.step(event));
        let a0 = cursors_asked(plan, prefix);
        let r0 = cursors_returned(plan, prefix);
        let a1 = cursors_asked(plan, events);
        let r1 = cursors_returned(plan, events);
        assert(a1 == a0 + page_asked_by(call));
        assert(r1 == r0 + cursor_of(before, event));
        match before.status {
            StatusView::Awaiting(op) => {
                if event is Failed {
                    assert(a1 =~= a0 && r1 =~= r0);
                } else {
                    match op.goal() {
                        Stage::Initial | Stage::Authenticated | Stage::IdentityResolved => {
                            assert(before.step(event) == before.establish(op, event));
                            assert(a1 =~= a0 && r1 =~= r0);
                        },
                        Stage::AccountProvisioned => {
                            assert(before.step(event) == before.provision(op, event));
                            assert(a1 =~= a0 && r1 =~= r0);
                        },
                        Stage::RepositoryMigrated | Stage::BlobsMigrated | Stage::PreferencesMigrated => {
                            assert(before.step(event) == before.transfer(op, event));
                            lemma_on_track_transfer(plan, events, op);
                        },
                        Stage::IdentityTransitioned => {
                            assert(before.step(event) == before.transition_identity(op, event));
                            assert(a1 =~= a0 && r1 =~= r0);
                        },
                        Stage::Finalized => {
                            assert(before.step(event) == before.finalize(op, event));
                            assert(a1 =~= a0 && r1 =~= r0);
                        },
                    }
                }
            },
            _ => {
                assert(a1 =~= a0 && r1 =~= r0);
            },
        }
    }
}

proof fn lemma_on_track_transfer(plan: PlanView, events: Seq<EventView>, op: Operation)
    requires
        plan.well_formed(),
        events.len() > 0,
        on_track(plan, events.drop_last()),
        session_after(plan, events.drop_last()).well_formed(),
        session_after(plan, events).well_formed(),
        session_after(plan, events.drop_last()).status == StatusView::Awaiting(op),
        !(events.last() is Failed),
        op.goal() == Stage::RepositoryMigrated || op.goal() == Stage::BlobsMigrated || op.goal()
            == Stage::PreferencesMigrated,
        run(plan, events) == session_after(plan, events.drop_last()).transfer(op, events.last()),
    ensures
        on_track(plan, events),
{
    let prefix = events.drop_last();
    let event = events.last();
    let before = session_after(plan, prefix);
    let call = call_after(plan, events);
    let a0 = cursors_asked(plan, prefix);
    let r0 = cursors_returned(plan, prefix);
    let a1 = cursors_asked(plan, events);
    let r1 = cursors_returned(plan, events);
    assert(a1 == a0 + page_asked_by(call));
    assert(r1 == r0 + cursor_of(before, event));
    match (op, event) {
        (Operation::ImportRepository, EventView::Completed) => {
            assert(r1 =~= r0);
            assert(a1 =~= seq![None]);
        },
        (Operation::ListBlobs, EventView::BlobsListed { content_ids, cursor }) => {
            let turned = SessionView { blobs: before.blobs.page_listed(content_ids, cursor), ..before };
            lemma_continue_blobs(turned);
            assert(r1 == r0 + seq![cursor]);
            assert(r1.last() == cursor);
            if turned.blobs.has_current() || cursor is None {
                assert(a1 =~= a0);
            } else {
                assert(a1 == a0 + seq![cursor]);
            }
            assert(follows(a1, r1));
        },
        (Operation::UploadBlob, EventView::Completed) => {
            let turned = SessionView { blobs: before.blobs.blob_uploaded(), ..before };
            lemma_continue_blobs(turned);
            assert(r1 =~= r0);
            if turned.blobs.has_current() || before.blobs.cursor is None {
                assert(a1 =~= a0);
            } else {
                assert(a1 == a0 + seq![before.blobs.cursor]);
            }
            assert(follows(a1, r1));
        },
        _ => {
            assert(a1 =~= a0 && r1 =~= r0);
        },
    }
}

/// At every point of every run: the first page is asked for without a
/// cursor; every later page is asked for with the cursor that came back
/// with the page before it, and only where one came back. The cursor of a
/// run is always the one that the source server supplied last.
pub proof fn lemma_pages_follow_cursors(plan: PlanView, events: Seq<EventView>)
    requires
        plan.well_formed(),
    ensures
        follows(cursors_asked(plan, events), cursors_returned(plan, events)),
{
    lemma_on_track_holds(plan, events);
}

/// Once the blobs count as migrated, every page that was asked for has
/// come, and the last one came without a cursor.
pub proof fn lemma_listing_ends_without_cursor(plan: PlanView, events: Seq<EventView>)
    requires
        plan.well_formed(),
        session_after(plan, events).stage.rank() >= Stage::BlobsMigrated.rank(),
    ensures
        cursors_returned(plan, events).len() == cursors_asked(plan, events).len(),
        cursors_returned(plan, events).len() > 0,
        cursors_returned(plan, events).last() is None,
{
    lemma_on_track_holds(plan, events);
}

/// Where the source server never returns the same cursor twice, no page is
/// asked for twice.
pub proof fn lemma_no_page_is_asked_twice(plan: PlanView, events: Seq<EventView>, i: int, j: int)
    requires
        plan.well_formed(),
        forall|a: int, b: int|
            0 <= a < b < cursors_returned(plan, events).len() ==> cursors_returned(plan, events)[a]
                != cursors_returned(plan, events)[b],
        0 <= i < j < cursors_asked(plan, events).len(),
    ensures
        cursors_asked(plan, events)[i] != cursors_asked(plan, events)[j],
{
    lemma_on_track_holds(plan, events);
    let asked = cursors_asked(plan, events);
    let returned = cursors_returned(plan, events);
    assert(returned[j - 1] is Some && asked[j] == returned[j - 1]);
    if i > 0 {
        assert(returned[i - 1] is Some && asked[i] == returned[i - 1]);
    }
}

} // verus!
