//! What a run moves from one server to the other, it moves unchanged.

use crate::laws::runs::{call_after, lemma_call_is_awaited, lemma_step_by_stage, run, session_after};
use crate::plan::PlanView;
use crate::protocol::{ActionView, EventView};
use vstd::prelude::*;

verus! {

/// The archive that a run asks to import is the archive that the export
/// just before it brought, byte for byte.
pub proof fn lemma_repository_is_imported_verbatim(plan: PlanView, events: Seq<EventView>)
    requires
        call_after(plan, events) is ImportRepository,
    ensures
        events.len() > 0,
        call_after(plan, events.drop_last()) is ExportRepository,
        events.last() matches EventView::RepositoryExported { archive } && call_after(plan, events) == (
        ActionView::ImportRepository { archive }),
{
    lemma_call_is_awaited(plan, events);
    if events.len() > 0 {
        let prefix = events.drop_last();
        assert(run(plan, events) == session_after(plan, prefix).step(events.last()));
        lemma_call_is_awaited(plan, prefix);
        lemma_step_by_stage(session_after(plan, prefix), events.last());
    }
}

/// The blob that a run asks to upload is the blob that the fetch just
/// before it brought: the same content ID, and the bytes that came back.
pub proof fn lemma_blob_is_uploaded_verbatim(plan: PlanView, events: Seq<EventView>)
    requires
        call_after(plan, events) is UploadBlob,
    ensures
        events.len() > 0,
        call_after(plan, events.drop_last()) is FetchBlob,
        events.last() matches EventView::BlobFetched { payload } && call_after(plan, events) == (
        ActionView::UploadBlob {
            content_id: call_after(plan, events.drop_last())->FetchBlob_content_id,
            payload,
        }),
{
    lemma_call_is_awaited(plan, events);
    if events.len() > 0 {
        let prefix = events.drop_last();
        assert(run(plan, events) == session_after(plan, prefix).step(events.last()));
        lemma_call_is_awaited(plan, prefix);
        lemma_step_by_stage(session_after(plan, prefix), events.last());
        lemma_fetch_asks_for_the_current_blob(plan, prefix);
    }
}

/// While a fetch is awaited, the call that is under way asks for the blob
/// that the session has reached.
proof fn lemma_fetch_asks_for_the_current_blob(plan: PlanView, events: Seq<EventView>)
    requires
        call_after(plan, events) is FetchBlob,
    ensures
        call_after(plan, events)->FetchBlob_content_id == session_after(plan, events).blobs.current(),
{
    if events.len() > 0 {
        let prefix = events.drop_last();
        assert(run(plan, events) == session_after(plan, prefix).step(events.last()));
        lemma_step_by_stage(session_after(plan, prefix), events.last());
    }
}

/// The preferences that a run asks to store are the preferences that the
/// source server just returned, all of them and nothing else.
pub proof fn lemma_preferences_are_replaced_verbatim(plan: PlanView, events: Seq<EventView>)
    requires
        call_after(plan, events) is PutPreferences,
    ensures
        events.len() > 0,
        call_after(plan, events.drop_last()) is GetPreferences,
        events.last() matches EventView::PreferencesFetched { preferences } && call_after(plan, events) == (
        ActionView::PutPreferences { preferences }),
{
    lemma_call_is_awaited(plan, events);
    if events.len() > 0 {
        let prefix = events.drop_last();
        assert(run(plan, events) == session_after(plan, prefix).step(events.last()));
        lemma_call_is_awaited(plan, prefix);
        lemma_step_by_stage(session_after(plan, prefix), events.last());
    }
}

} // verus!
