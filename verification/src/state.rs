//! Value types of the derived todo index and of the page store snapshot it
//! is built from.
//!
//! The index is an ordered sequence of entries, one per task block found
//! during a scan. Entries carry a full snapshot copy of their block, so the
//! index stays meaningful when the primary store moves on. All index values
//! are immutable once produced: maintenance operations return new values.

use vstd::prelude::*;

use crate::model::{BlockModel, PageId, PageIdModel, PageType, ParsedBlock, ParsedMarkdownFile,
    SimplePageName};

verus! {

/// The checkbox state of a task block.
#[derive(Clone, Copy, PartialEq, Eq, Structural, Debug)]
pub enum TodoState {
    Todo,
    Done,
}

/// Where a task block lives: its page (as full id, plain name and namespace)
/// and the 0-based position of the block in that page at scan time.
#[derive(Debug, PartialEq)]
pub struct TodoSourceReference {
    pub page_id: PageId,
    pub page_name: SimplePageName,
    pub page_type: PageType,
    pub blocknumber: usize,
}

/// Model of a [`TodoSourceReference`].
#[verifier::ext_equal]
pub struct SourceModel {
    pub page_id: PageIdModel,
    pub page_name: Seq<char>,
    pub page_type: PageType,
    pub blocknumber: nat,
}

/// One task block found during a scan: where it lives, a snapshot copy of
/// the block, its checkbox state, and the contextual tags it is indexed
/// under.
pub struct TodoIndexEntry {
    pub source: TodoSourceReference,
    pub block: ParsedBlock,
    pub state: TodoState,
    pub tags: Vec<SimplePageName>,
}

/// Model of a [`TodoIndexEntry`].
#[verifier::ext_equal]
pub struct EntryModel {
    pub source: SourceModel,
    pub block: BlockModel,
    pub state: TodoState,
    pub tags: Seq<Seq<char>>,
}

/// The derived todo index: entries in scan order.
pub struct TodoIndex {
    pub entries: Vec<TodoIndexEntry>,
}

/// Snapshot of the general page namespace: names with their parsed pages,
/// in the store's scan order.
pub struct UserPageIndex {
    pub entries: Vec<(SimplePageName, ParsedMarkdownFile)>,
}

/// Snapshot of the date-keyed journal namespace: names with their parsed
/// pages, in the store's scan order.
pub struct JournalPageIndex {
    pub entries: Vec<(SimplePageName, ParsedMarkdownFile)>,
}

impl View for TodoSourceReference {
    type V = SourceModel;

    open spec fn view(&self) -> SourceModel {
        SourceModel {
            page_id: self.page_id@,
            page_name: self.page_name@,
            page_type: self.page_type,
            blocknumber: self.blocknumber as nat,
        }
    }
}

impl DeepView for TodoSourceReference {
    type V = SourceModel;

    open spec fn deep_view(&self) -> SourceModel {
        self@
    }
}

impl View for TodoIndexEntry {
    type V = EntryModel;

    open spec fn view(&self) -> EntryModel {
        EntryModel {
            source: self.source@,
            block: self.block@,
            state: self.state,
            tags: self.tags.deep_view(),
        }
    }
}

impl DeepView for TodoIndexEntry {
    type V = EntryModel;

    open spec fn deep_view(&self) -> EntryModel {
        self@
    }
}

impl View for TodoIndex {
    type V = Seq<EntryModel>;

    open spec fn view(&self) -> Seq<EntryModel> {
        self.entries.deep_view()
    }
}

impl DeepView for TodoIndex {
    type V = Seq<EntryModel>;

    open spec fn deep_view(&self) -> Seq<EntryModel> {
        self@
    }
}

impl View for UserPageIndex {
    type V = Seq<(Seq<char>, Seq<BlockModel>)>;

    open spec fn view(&self) -> Seq<(Seq<char>, Seq<BlockModel>)> {
        self.entries.deep_view()
    }
}

impl View for JournalPageIndex {
    type V = Seq<(Seq<char>, Seq<BlockModel>)>;

    open spec fn view(&self) -> Seq<(Seq<char>, Seq<BlockModel>)> {
        self.entries.deep_view()
    }
}

impl Clone for TodoSourceReference {
    fn clone(&self) -> (res: Self)
        ensures
            res == *self,
    {
        TodoSourceReference {
            page_id: self.page_id.clone(),
            page_name: self.page_name.clone(),
            page_type: self.page_type,
            blocknumber: self.blocknumber,
        }
    }
}

impl Clone for TodoIndexEntry {
    fn clone(&self) -> (res: Self)
        ensures
            res@ == self@,
    {
        let tags = self.tags.clone();
        proof {
            assert forall|i: int|
                0 <= i < self.tags@.len() implies tags.deep_view()[i]
                == self.tags.deep_view()[i] by {
                assert(cloned(self.tags@[i], tags@[i]));
            }
            assert(tags.deep_view() =~= self.tags.deep_view());
        }
        TodoIndexEntry {
            source: self.source.clone(),
            block: self.block.clone(),
            state: self.state,
            tags,
        }
    }
}

} // verus!
