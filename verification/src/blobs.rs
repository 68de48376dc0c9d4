//! The blob transfer engine: page by page, and within a page blob by blob.
//!
//! The engine keeps the cursor that the source server returned with the
//! last page, the content IDs of that page and how many of them are done.

use vstd::prelude::*;

verus! {

/// What the engine asks for next.
#[derive(Clone, Debug, PartialEq, Eq)]
pub enum BlobRequest {
    /// List the page behind `cursor`; the first page where there is none.
    List { cursor: Option<String> },
    /// Fetch the blob `content_id` and upload what comes back.
    Fetch { content_id: String },
    /// Nothing: every listed blob is transferred and no page is left.
    Done,
}

pub enum BlobRequestView {
    List { cursor: Option<Seq<char>> },
    Fetch { content_id: Seq<char> },
    Done,
}

impl View for BlobRequest {
    type V = BlobRequestView;

    open spec fn view(&self) -> BlobRequestView {
        match self {
            BlobRequest::List { cursor } => BlobRequestView::List { cursor: cursor.deep_view() },
            BlobRequest::Fetch { content_id } => BlobRequestView::Fetch { content_id: content_id@ },
            BlobRequest::Done => BlobRequestView::Done,
        }
    }
}

/// The progress of a blob transfer.
#[derive(Debug, PartialEq, Eq)]
pub struct BlobTransfer {
    cursor: Option<String>,
    page: Vec<String>,
    position: usize,
    transferred: u64,
}

pub struct BlobTransferView {
    /// The cursor that came with the last page.
    pub cursor: Option<Seq<char>>,
    /// The content IDs of the last page.
    pub page: Seq<Seq<char>>,
    /// How many blobs of the last page are transferred.
    pub position: nat,
    /// How many blobs are transferred in all; the count stops at `u64::MAX`.
    pub transferred: nat,
}

impl BlobTransferView {
    pub open spec fn well_formed(self) -> bool {
        &&& self.position <= self.page.len()
        &&& self.transferred <= u64::MAX
    }

    /// Before the first page.
    pub open spec fn initial() -> BlobTransferView {
        BlobTransferView { cursor: None, page: Seq::empty(), position: 0, transferred: 0 }
    }

    /// A page arrived: its cursor replaces the one held, whether or not it
    /// brings one, and its content IDs are all still to do.
    pub open spec fn page_listed(self, content_ids: Seq<Seq<char>>, cursor: Option<Seq<char>>) -> BlobTransferView {
        BlobTransferView { cursor, page: content_ids, position: 0, transferred: self.transferred }
    }

    /// Whether a blob of the last page is still to do.
    pub open spec fn has_current(self) -> bool {
        self.position < self.page.len()
    }

    /// The blob that is to do next.
    pub open spec fn current(self) -> Seq<char> {
        self.page[self.position as int]
    }

    /// The current blob was fetched and uploaded.
    pub open spec fn blob_uploaded(self) -> BlobTransferView {
        BlobTransferView {
            cursor: self.cursor,
            page: self.page,
            position: self.position + 1,
            transferred: if self.transferred < u64::MAX {
                self.transferred + 1
            } else {
                self.transferred
            },
        }
    }

    /// What to ask for: the next blob of the page; after the last one the
    /// page behind the cursor; nothing where the last page brought no cursor.
    pub open spec fn next(self) -> BlobRequestView {
        if self.has_current() {
            BlobRequestView::Fetch { content_id: self.current() }
        } else if self.cursor is Some {
            BlobRequestView::List { cursor: self.cursor }
        } else {
            BlobRequestView::Done
        }
    }
}

impl View for BlobTransfer {
    type V = BlobTransferView;

    closed spec fn view(&self) -> BlobTransferView {
        BlobTransferView {
            cursor: self.cursor.deep_view(),
            page: self.page.deep_view(),
            position: self.position as nat,
            transferred: self.transferred as nat,
        }
    }
}

impl BlobTransfer {
    /// Every engine is well-formed.
    #[verifier::type_invariant]
    pub open spec fn inv(self) -> bool {
        self@.well_formed()
    }

    /// An engine that has listed nothing yet.
    pub fn new() -> (engine: BlobTransfer)
        ensures
            engine@ == BlobTransferView::initial(),
            engine@.well_formed(),
    {
        let engine = BlobTransfer { cursor: None, page: Vec::new(), position: 0, transferred: 0 };
        assert(engine.page.deep_view() =~= Seq::<Seq<char>>::empty());
        engine
    }

    /// Takes in a page that the source server listed.
    pub fn accept_page(self, content_ids: Vec<String>, cursor: Option<String>) -> (engine: BlobTransfer)
        ensures
            engine@ == self@.page_listed(content_ids.deep_view(), cursor.deep_view()),
            engine@.well_formed(),
    {
        BlobTransfer { cursor, page: content_ids, position: 0, transferred: self.transferred }
    }

    /// Whether a blob of the last page is still to do.
    pub fn has_current(&self) -> (r: bool)
        ensures
            r == self@.has_current(),
    {
        self.position < self.page.len()
    }

    /// The content ID of the blob that is to do next.
    pub fn current(&self) -> (content_id: String)
        requires
            self@.has_current(),
        ensures
            content_id@ == self@.current(),
    {
        self.page[self.position].clone()
    }

    /// Records that the current blob was fetched and uploaded.
    pub fn mark_uploaded(self) -> (engine: BlobTransfer)
        requires
            self@.has_current(),
        ensures
            engine@ == self@.blob_uploaded(),
            engine@.well_formed(),
    {
        assert(self.position < self.page.len()) by {
            assert(self.page.deep_view().len() == self.page.len());
        }
        let transferred = if self.transferred < u64::MAX {
            self.transferred + 1
        } else {
            self.transferred
        };
        BlobTransfer {
            cursor: self.cursor,
            page: self.page,
            position: self.position + 1,
            transferred,
        }
    }

    /// What to ask for next.
    pub fn next(&self) -> (request: BlobRequest)
        ensures
            request@ == self@.next(),
    {
        if self.position < self.page.len() {
            BlobRequest::Fetch { content_id: self.page[self.position].clone() }
        } else {
            match &self.cursor {
                Some(cursor) => BlobRequest::List { cursor: Some(cursor.clone()) },
                None => BlobRequest::Done,
            }
        }
    }

    /// The cursor that came with the last page.
    pub fn cursor(&self) -> (r: Option<String>)
        ensures
            r.deep_view() == self@.cursor,
    {
        match &self.cursor {
            Some(cursor) => Some(cursor.clone()),
            None => None,
        }
    }

    /// How many blobs are transferred.
    pub fn transferred(&self) -> (r: u64)
        ensures
            r == self@.transferred,
    {
        self.transferred
    }
}

} // verus!
