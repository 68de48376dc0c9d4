//! A blob transfer that meets no failure comes to its end.

use crate::laws::runs::{
    call_after, lemma_call_is_awaited, lemma_run_is_well_formed, lemma_step_by_stage,
    lemma_step_preserves_well_formed, run, session_after,
};
use crate::model::{SessionView, StatusView};
use crate::plan::PlanView;
use crate::protocol::{ActionView, EventView};
use crate::stage::{Operation, Stage};
use vstd::prelude::*;

verus! {

/// One blob as the source server holds it.
pub struct StoredBlob {
    pub content_id: Seq<char>,
    pub payload: Seq<u8>,
}

/// One page of a listing, with the blobs that it names.
pub struct StoredPage {
    pub blobs: Seq<StoredBlob>,
    pub cursor: Option<Seq<char>>,
}

impl StoredPage {
    /// The content IDs of the page, in its order.
    pub open spec fn content_ids(self) -> Seq<Seq<char>> {
        Seq::new(self.blobs.len(), |i: int| self.blobs[i].content_id)
    }
}

/// The outcomes of fetching and uploading each of `blobs` with success.
pub open spec fn transfers(blobs: Seq<StoredBlob>) -> Seq<EventView>
    decreases blobs.len(),
{
    if blobs.len() == 0 {
        Seq::empty()
    } else {
        seq![EventView::BlobFetched { payload: blobs[0].payload }, EventView::Completed] + transfers(
            blobs.drop_first(),
        )
    }
}

/// The outcomes of listing a page and transferring its blobs with success.
pub open spec fn page_outcomes(page: StoredPage) -> Seq<EventView> {
    seq![EventView::BlobsListed { content_ids: page.content_ids(), cursor: page.cursor }] + transfers(
        page.blobs,
    )
}

/// The outcomes of listing `pages` one after the other and transferring
/// all their blobs with success.
pub open spec fn transfer_outcomes(pages: Seq<StoredPage>) -> Seq<EventView>
    decreases pages.len(),
{
    if pages.len() == 0 {
        Seq::empty()
    } else {
        page_outcomes(pages[0]) + transfer_outcomes(pages.drop_first())
    }
}

/// A listing that ends: the last page comes without a cursor, and it is the
/// only one that does.
pub open spec fn listing_ends(pages: Seq<StoredPage>) -> bool {
    &&& pages.len() > 0
    &&& pages.last().cursor is None
    &&& forall|i: int| 0 <= i < pages.len() - 1 ==> (#[trigger] pages[i]).cursor is Some
}

/// The session that `events`, told in their order, lead `session` to.
pub open spec fn after(session: SessionView, events: Seq<EventView>) -> SessionView
    decreases events.len(),
{
    if events.len() == 0 {
        session
    } else {
        after(session.step(events[0]).0, events.drop_first())
    }
}

/// To be told of two sequences of outcomes is to be told of the first and
/// then of the second.
proof fn lemma_after_both(session: SessionView, first: Seq<EventView>, second: Seq<EventView>)
    ensures
        after(session, first + second) == after(after(session, first), second),
    decreases first.len(),
{
    if first.len() == 0 {
        assert(first + second =~= second);
    } else {
        assert((first + second)[0] == first[0]);
        assert((first + second).drop_first() =~= first.drop_first() + second);
        lemma_after_both(session.step(first[0]).0, first.drop_first(), second);
    }
}

/// A run that goes on is its session told of what follows.
pub proof fn lemma_run_goes_on(plan: PlanView, events: Seq<EventView>, more: Seq<EventView>)
    ensures
        session_after(plan, events + more) == after(session_after(plan, events), more),
    decreases more.len(),
{
    if more.len() == 0 {
        assert(events + more =~= events);
    } else {
        let longer = events.push(more[0]);
        assert(longer.drop_last() =~= events);
        assert(longer.last() == more[0]);
        assert(run(plan, longer) == session_after(plan, events).step(more[0]));
        assert(longer + more.drop_first() =~= events + more);
        lemma_run_goes_on(plan, longer, more.drop_first());
    }
}

/// The blobs of a page that are still to do get done, one fetch and one
/// upload each; the session then asks for the next page, or, where the page
/// came without a cursor, has the blobs migrated.
proof fn lemma_page_is_finished(session: SessionView, blobs: Seq<StoredBlob>)
    requires
        session.well_formed(),
        session.status == StatusView::Awaiting(Operation::FetchBlob),
        blobs.len() == session.blobs.page.len() - session.blobs.position,
    ensures
        ({
            let done = after(session, transfers(blobs));
            &&& done.well_formed()
            &&& session.blobs.cursor is Some ==> done.status == StatusView::Awaiting(Operation::ListBlobs)
            &&& session.blobs.cursor is None ==> done.status == StatusView::Awaiting(
                Operation::GetPreferences,
            ) && done.stage == Stage::BlobsMigrated
        }),
    decreases blobs.len(),
{
    let fetched = EventView::BlobFetched { payload: blobs[0].payload };
    let outcomes = transfers(blobs);
    let rest = blobs.drop_first();
    assert(outcomes[0] == fetched);
    assert(outcomes.drop_first()[0] == EventView::Completed);
    assert(outcomes.drop_first().drop_first() =~= transfers(rest));
    let uploading = session.step(fetched).0;
    lemma_step_by_stage(session, fetched);
    lemma_step_preserves_well_formed(session, fetched);
    let next = uploading.step(EventView::Completed).0;
    lemma_step_by_stage(uploading, EventView::Completed);
    lemma_step_preserves_well_formed(uploading, EventView::Completed);
    assert(after(session, outcomes) == after(uploading, outcomes.drop_first()));
    assert(after(uploading, outcomes.drop_first()) == after(next, outcomes.drop_first().drop_first()));
    if rest.len() > 0 {
        lemma_page_is_finished(next, rest);
    }
}

/// From a session that awaits a page, a listing that ends and whose blobs
/// all get through leads to the stage of the migrated blobs.
proof fn lemma_listing_is_finished(session: SessionView, pages: Seq<StoredPage>)
    requires
        session.well_formed(),
        session.status == StatusView::Awaiting(Operation::ListBlobs),
        listing_ends(pages),
    ensures
        after(session, transfer_outcomes(pages)).well_formed(),
        after(session, transfer_outcomes(pages)).stage == Stage::BlobsMigrated,
        after(session, transfer_outcomes(pages)).status == StatusView::Awaiting(Operation::GetPreferences),
    decreases pages.len(),
{
    let page = pages[0];
    let rest = pages.drop_first();
    let listed = EventView::BlobsListed { content_ids: page.content_ids(), cursor: page.cursor };
    let outcomes = page_outcomes(page);
    assert(outcomes[0] == listed);
    assert(outcomes.drop_first() =~= transfers(page.blobs));
    let turned = session.step(listed).0;
    lemma_step_by_stage(session, listed);
    lemma_step_preserves_well_formed(session, listed);
    assert(after(session, outcomes) == after(turned, transfers(page.blobs)));
    if page.blobs.len() > 0 {
        lemma_page_is_finished(turned, page.blobs);
    }
    let done = after(session, outcomes);
    lemma_after_both(session, outcomes, transfer_outcomes(rest));
    if pages.len() == 1 {
        assert(pages.last() == page);
        assert(transfer_outcomes(rest) =~= Seq::<EventView>::empty());
    } else {
        assert(page.cursor is Some);
        assert(rest.last() == pages.last());
        assert forall|i: int| 0 <= i < rest.len() - 1 implies (#[trigger] rest[i]).cursor is Some by {
            assert(rest[i] == pages[i + 1]);
        }
        lemma_listing_is_finished(done, rest);
    }
}

/// Where a run awaits a page of content IDs, and the listing from there on
/// ends without a cursor, and every fetch and every upload succeeds, the
/// run confirms the migration of the blobs and asks for the preferences
/// next.
pub proof fn lemma_successful_transfer_confirms_the_blobs(
    plan: PlanView,
    events: Seq<EventView>,
    pages: Seq<StoredPage>,
)
    requires
        plan.well_formed(),
        session_after(plan, events).status == StatusView::Awaiting(Operation::ListBlobs),
        listing_ends(pages),
    ensures
        session_after(plan, events + transfer_outcomes(pages)).stage == Stage::BlobsMigrated,
        call_after(plan, events + transfer_outcomes(pages)) == ActionView::GetPreferences,
{
    lemma_run_is_well_formed(plan, events);
    lemma_run_goes_on(plan, events, transfer_outcomes(pages));
    lemma_listing_is_finished(session_after(plan, events), pages);
    lemma_call_is_awaited(plan, events + transfer_outcomes(pages));
}

} // verus!
