//! The todo index builder and maintenance.
//!
//! A scan walks every page of a snapshot (general pages first, then journal
//! pages), feeds each page's blocks through a fresh hierarchy tracker, and
//! emits one entry per task block: a block whose first content line's first
//! token is todo-typed. The derived index is an ordered sequence of such
//! entries; removal of one page's entries returns a new index value.
//!
//! One inherited quirk is kept deliberately: when the full index is built,
//! journal pages are scanned with their journal page id but their entries'
//! source namespace marker is the general one (see [`scan_journal_pages`]).
//! [`create_todo_index_file`] takes the page id and the namespace marker as
//! explicit parameters, so either labelling is reachable by callers.

use vstd::prelude::*;
use vstd::string::StringExecFns;

use crate::hierarchy::{fed, stack_after, tag_set, HierarchyParser};
use crate::model::{BlockModel, BlockTokenType, PageId, PageIdModel, PageType, ParsedMarkdownFile,
    SimplePageName};
use crate::page_index::{append_journal_page_prefix, append_user_page_prefix, journal_page_id,
    user_page_id};
use crate::state::{EntryModel, JournalPageIndex, SourceModel, TodoIndex, TodoIndexEntry,
    TodoSourceReference, TodoState, UserPageIndex};

verus! {

/// The state a todo token's payload denotes: exactly one space character
/// marks an open task; every other payload is read as done.
pub open spec fn spec_state_from_payload(payload: Seq<char>) -> TodoState {
    if payload == seq![' '] {
        TodoState::Todo
    } else {
        TodoState::Done
    }
}

/// Whether a block is a task block: its first content line's first token is
/// todo-typed. Later tokens and later lines are irrelevant.
pub open spec fn block_is_todo(b: BlockModel) -> bool {
    &&& b.content.len() > 0
    &&& b.content[0].as_tokens.len() > 0
    &&& b.content[0].as_tokens[0].block_token_type == BlockTokenType::TODO
}

/// The index entry emitted for a task block: where it lives, a snapshot copy
/// of the block, the state its first token's payload denotes, and the tag
/// set current when the block was fed.
pub open spec fn todo_entry(
    page_id: PageIdModel,
    page_type: PageType,
    name: Seq<char>,
    block: BlockModel,
    blocknumber: nat,
    stack: Seq<crate::hierarchy::FrameModel>,
) -> EntryModel {
    EntryModel {
        source: SourceModel { page_id, page_name: name, page_type, blocknumber },
        block,
        state: spec_state_from_payload(block.content[0].as_tokens[0].payload),
        tags: tag_set(name, stack),
    }
}

/// The entries one page contributes: its blocks in document order, each fed
/// to the tracker before inspection, task blocks emitting one entry each at
/// their 0-based position.
pub open spec fn page_entries(
    page_id: PageIdModel,
    page_type: PageType,
    name: Seq<char>,
    blocks: Seq<BlockModel>,
) -> Seq<EntryModel>
    decreases blocks.len(),
{
    if blocks.len() == 0 {
        Seq::empty()
    } else {
        page_entries(page_id, page_type, name, blocks.drop_last()) + if block_is_todo(
            blocks.last(),
        ) {
            seq![
                todo_entry(
                    page_id,
                    page_type,
                    name,
                    blocks.last(),
                    (blocks.len() - 1) as nat,
                    stack_after(blocks),
                ),
            ]
        } else {
            Seq::<EntryModel>::empty()
        }
    }
}

/// The entries of a scan over the general page namespace, pages in snapshot
/// order.
pub open spec fn scan_user_pages(pages: Seq<(Seq<char>, Seq<BlockModel>)>) -> Seq<EntryModel>
    decreases pages.len(),
{
    if pages.len() == 0 {
        Seq::empty()
    } else {
        scan_user_pages(pages.drop_last()) + page_entries(
            user_page_id(pages.last().0),
            PageType::UserPage,
            pages.last().0,
            pages.last().1,
        )
    }
}

/// The entries of a scan over the journal namespace, pages in snapshot
/// order. Each page is recorded under its journal page id, but the source's
/// namespace marker is the general one — the inherited labelling quirk of
/// the full-index build, kept for behavioural compatibility.
pub open spec fn scan_journal_pages(pages: Seq<(Seq<char>, Seq<BlockModel>)>) -> Seq<EntryModel>
    decreases pages.len(),
{
    if pages.len() == 0 {
        Seq::empty()
    } else {
        scan_journal_pages(pages.drop_last()) + page_entries(
            journal_page_id(pages.last().0),
            PageType::UserPage,
            pages.last().0,
            pages.last().1,
        )
    }
}

/// The full derived index of a snapshot: the general namespace's entries,
/// then the journal namespace's, each in scan order.
pub open spec fn full_index(
    user: Seq<(Seq<char>, Seq<BlockModel>)>,
    journal: Seq<(Seq<char>, Seq<BlockModel>)>,
) -> Seq<EntryModel> {
    scan_user_pages(user) + scan_journal_pages(journal)
}

/// The entries that survive removal of one page: exactly those whose source
/// page name differs from the removed name, in their original relative
/// order. Comparison is by name only, never by namespace.
pub open spec fn entries_without_page(entries: Seq<EntryModel>, name: Seq<char>) -> Seq<
    EntryModel,
>
    decreases entries.len(),
{
    if entries.len() == 0 {
        Seq::empty()
    } else {
        entries_without_page(entries.drop_last(), name) + if entries.last().source.page_name
            != name {
            seq![entries.last()]
        } else {
            Seq::<EntryModel>::empty()
        }
    }
}

/// How many task blocks a block sequence holds.
pub open spec fn count_todo_blocks(blocks: Seq<BlockModel>) -> nat
    decreases blocks.len(),
{
    if blocks.len() == 0 {
        0
    } else {
        count_todo_blocks(blocks.drop_last()) + if block_is_todo(blocks.last()) {
            1nat
        } else {
            0nat
        }
    }
}

/// How many task blocks a namespace snapshot holds, over all its pages.
pub open spec fn count_snapshot_todo_blocks(pages: Seq<(Seq<char>, Seq<BlockModel>)>) -> nat
    decreases pages.len(),
{
    if pages.len() == 0 {
        0
    } else {
        count_snapshot_todo_blocks(pages.drop_last()) + count_todo_blocks(pages.last().1)
    }
}

proof fn lemma_stack_after_step(blocks: Seq<BlockModel>, n: int)
    requires
        0 <= n < blocks.len(),
    ensures
        stack_after(blocks.take(n + 1)) == fed(stack_after(blocks.take(n)), blocks[n]),
{
    assert(blocks.take(n + 1).drop_last() =~= blocks.take(n));
    assert(blocks.take(n + 1).last() == blocks[n]);
}

proof fn lemma_page_entries_step(
    page_id: PageIdModel,
    page_type: PageType,
    name: Seq<char>,
    blocks: Seq<BlockModel>,
    n: int,
)
    requires
        0 <= n < blocks.len(),
    ensures
        page_entries(page_id, page_type, name, blocks.take(n + 1)) == page_entries(
            page_id,
            page_type,
            name,
            blocks.take(n),
        ) + if block_is_todo(blocks[n]) {
            seq![
                todo_entry(
                    page_id,
                    page_type,
                    name,
                    blocks[n],
                    n as nat,
                    stack_after(blocks.take(n + 1)),
                ),
            ]
        } else {
            Seq::<EntryModel>::empty()
        },
{
    assert(blocks.take(n + 1).drop_last() =~= blocks.take(n));
    assert(blocks.take(n + 1).last() == blocks[n]);
}

proof fn lemma_scan_user_pages_step(pages: Seq<(Seq<char>, Seq<BlockModel>)>, n: int)
    requires
        0 <= n < pages.len(),
    ensures
        scan_user_pages(pages.take(n + 1)) == scan_user_pages(pages.take(n)) + page_entries(
            user_page_id(pages[n].0),
            PageType::UserPage,
            pages[n].0,
            pages[n].1,
        ),
{
    assert(pages.take(n + 1).drop_last() =~= pages.take(n));
    assert(pages.take(n + 1).last() == pages[n]);
}

proof fn lemma_scan_journal_pages_step(pages: Seq<(Seq<char>, Seq<BlockModel>)>, n: int)
    requires
        0 <= n < pages.len(),
    ensures
        scan_journal_pages(pages.take(n + 1)) == scan_journal_pages(pages.take(n)) + page_entries(
            journal_page_id(pages[n].0),
            PageType::UserPage,
            pages[n].0,
            pages[n].1,
        ),
{
    assert(pages.take(n + 1).drop_last() =~= pages.take(n));
    assert(pages.take(n + 1).last() == pages[n]);
}

proof fn lemma_entries_without_page_step(entries: Seq<EntryModel>, name: Seq<char>, n: int)
    requires
        0 <= n < entries.len(),
    ensures
        entries_without_page(entries.take(n + 1), name) == entries_without_page(
            entries.take(n),
            name,
        ) + if entries[n].source.page_name != name {
            seq![entries[n]]
        } else {
            Seq::<EntryModel>::empty()
        },
{
    assert(entries.take(n + 1).drop_last() =~= entries.take(n));
    assert(entries.take(n + 1).last() == entries[n]);
}

/// Reads a todo token's payload as a checkbox state: exactly one space means
/// the task is open; every other payload is read as done.
pub fn state_from_payload(payload: &String) -> (state: TodoState)
    ensures
        state == spec_state_from_payload(payload@),
{
    let space = String::from_str(" ");
    proof {
        reveal_strlit(" ");
        assert(space@ =~= seq![' ']);
    }
    if payload.eq(&space) {
        return TodoState::Todo;
    }
    TodoState::Done
}

/// Scans one page and appends its entries to `result`, in block order.
///
/// The caller chooses the page id and the namespace marker recorded in the
/// entries' source references, independently of each other.
pub fn create_todo_index_file(
    result: &mut Vec<TodoIndexEntry>,
    page_id: &PageId,
    page_type: &PageType,
    page_name: &SimplePageName,
    file: &ParsedMarkdownFile,
)
    ensures
        final(result).deep_view() == old(result).deep_view() + page_entries(
            page_id@,
            *page_type,
            page_name@,
            file@,
        ),
{
    let mut hierarchy_index = HierarchyParser {
        page_name: page_name.clone(),
        current_hierarchy: Vec::new(),
    };
    proof {
        assert(hierarchy_index.current_hierarchy.deep_view() =~= stack_after(file@.take(0)));
        assert(result.deep_view() + page_entries(page_id@, *page_type, page_name@, file@.take(0))
            =~= result.deep_view());
    }
    let mut blocknumber: usize = 0;
    while blocknumber < file.blocks.len()
        invariant
            blocknumber <= file.blocks.len(),
            hierarchy_index.page_name@ == page_name@,
            hierarchy_index.current_hierarchy.deep_view() == stack_after(
                file@.take(blocknumber as int),
            ),
            result.deep_view() == old(result).deep_view() + page_entries(
                page_id@,
                *page_type,
                page_name@,
                file@.take(blocknumber as int),
            ),
        decreases file.blocks.len() - blocknumber,
    {
        let block = &file.blocks[blocknumber];
        hierarchy_index.feed(block);
        proof {
            assert(block@ == file@[blocknumber as int]);
            lemma_stack_after_step(file@, blocknumber as int);
            assert(hierarchy_index.current_hierarchy.deep_view() == stack_after(
                file@.take(blocknumber as int + 1),
            ));
        }
        let ghost pre = result.deep_view();
        if block.content.len() > 0 {
            let content_line = &block.content[0];
            if content_line.as_tokens.len() > 0 {
                let first_token = &content_line.as_tokens[0];
                if first_token.block_token_type == BlockTokenType::TODO {
                    proof {
                        assert(content_line@ == block@.content[0]);
                        assert(first_token@ == block@.content[0].as_tokens[0]);
                        assert(block_is_todo(file@[blocknumber as int]));
                    }
                    let state = state_from_payload(&first_token.payload);
                    let tags = hierarchy_index.get_current_tag_set();
                    result.push(
                        TodoIndexEntry {
                            block: block.clone(),
                            source: TodoSourceReference {
                                page_id: page_id.clone(),
                                page_name: page_name.clone(),
                                page_type: *page_type,
                                blocknumber,
                            },
                            state,
                            tags,
                        },
                    );
                    proof {
                        assert(result.deep_view() =~= pre.push(
                            todo_entry(
                                page_id@,
                                *page_type,
                                page_name@,
                                file@[blocknumber as int],
                                blocknumber as nat,
                                stack_after(file@.take(blocknumber as int + 1)),
                            ),
                        ));
                    }
                }
            }
        }
        proof {
            lemma_page_entries_step(page_id@, *page_type, page_name@, file@, blocknumber as int);
            let prefix = old(result).deep_view() + page_entries(
                page_id@,
                *page_type,
                page_name@,
                file@.take(blocknumber as int),
            );
            if block_is_todo(file@[blocknumber as int]) {
                let entry = todo_entry(
                    page_id@,
                    *page_type,
                    page_name@,
                    file@[blocknumber as int],
                    blocknumber as nat,
                    stack_after(file@.take(blocknumber as int + 1)),
                );
                assert(prefix.push(entry) =~= old(result).deep_view() + page_entries(
                    page_id@,
                    *page_type,
                    page_name@,
                    file@.take(blocknumber as int + 1),
                ));
            } else {
                assert(block.content.len() > 0 && block.content[0].as_tokens.len() > 0
                    ==> block@.content[0].as_tokens[0].block_token_type != BlockTokenType::TODO);
                assert(result.deep_view() =~= old(result).deep_view() + page_entries(
                    page_id@,
                    *page_type,
                    page_name@,
                    file@.take(blocknumber as int + 1),
                ));
            }
        }
        blocknumber += 1;
    }
    proof {
        assert(file@.take(file.blocks.len() as int) =~= file@);
    }
}

/// Builds the full derived index of a snapshot: general pages first, then
/// journal pages, each namespace in its snapshot's scan order.
///
/// Journal pages are recorded under their journal page id; their entries'
/// namespace marker, however, is the general one — the inherited labelling
/// quirk described on [`scan_journal_pages`].
pub fn create_todo_index(data_state: &UserPageIndex, journal_state: &JournalPageIndex) -> (r:
    TodoIndex)
    ensures
        r@ == full_index(data_state@, journal_state@),
{
    let mut result: Vec<TodoIndexEntry> = Vec::new();
    proof {
        assert(result.deep_view() =~= scan_user_pages(data_state@.take(0)));
    }
    let mut i: usize = 0;
    while i < data_state.entries.len()
        invariant
            i <= data_state.entries.len(),
            result.deep_view() == scan_user_pages(data_state@.take(i as int)),
        decreases data_state.entries.len() - i,
    {
        let simple_page_name = &data_state.entries[i].0;
        let file = &data_state.entries[i].1;
        let page_id = append_user_page_prefix(simple_page_name);
        create_todo_index_file(
            &mut result,
            &page_id,
            &PageType::UserPage,
            simple_page_name,
            file,
        );
        proof {
            lemma_scan_user_pages_step(data_state@, i as int);
            assert(data_state@[i as int] == (simple_page_name.deep_view(), file.deep_view()));
        }
        i += 1;
    }
    proof {
        assert(data_state@.take(data_state.entries.len() as int) =~= data_state@);
        assert(result.deep_view() + scan_journal_pages(journal_state@.take(0)) =~= result.deep_view());
    }
    let mut j: usize = 0;
    while j < journal_state.entries.len()
        invariant
            j <= journal_state.entries.len(),
            result.deep_view() == scan_user_pages(data_state@) + scan_journal_pages(
                journal_state@.take(j as int),
            ),
        decreases journal_state.entries.len() - j,
    {
        let simple_page_name = &journal_state.entries[j].0;
        let file = &journal_state.entries[j].1;
        let page_id = append_journal_page_prefix(simple_page_name);
        create_todo_index_file(
            &mut result,
            &page_id,
            &PageType::UserPage,
            simple_page_name,
            file,
        );
        proof {
            lemma_scan_journal_pages_step(journal_state@, j as int);
            assert(journal_state@[j as int] == (simple_page_name.deep_view(), file.deep_view()));
        }
        j += 1;
    }
    proof {
        assert(journal_state@.take(journal_state.entries.len() as int) =~= journal_state@);
    }
    TodoIndex { entries: result }
}

/// Returns a new index without the entries of the given page: exactly the
/// entries whose source page name differs survive, untouched and in their
/// original relative order. Removal goes by name only, so a general page and
/// a journal page of the same name are both removed.
pub fn remove_file_from_todo_index(todo_index: &TodoIndex, tag_name: &SimplePageName) -> (r:
    TodoIndex)
    ensures
        r@ == entries_without_page(todo_index@, tag_name@),
{
    let mut result: Vec<TodoIndexEntry> = Vec::new();
    proof {
        assert(result.deep_view() =~= entries_without_page(todo_index@.take(0), tag_name@));
    }
    let mut i: usize = 0;
    while i < todo_index.entries.len()
        invariant
            i <= todo_index.entries.len(),
            result.deep_view() == entries_without_page(todo_index@.take(i as int), tag_name@),
        decreases todo_index.entries.len() - i,
    {
        let entry = &todo_index.entries[i];
        let ghost pre = result.deep_view();
        if !(entry.source.page_name.name.eq(&tag_name.name)) {
            result.push(entry.clone());
            proof {
                assert(result.deep_view() =~= pre.push(todo_index@[i as int]));
            }
        }
        proof {
            lemma_entries_without_page_step(todo_index@, tag_name@, i as int);
            assert(entry@ == todo_index@[i as int]);
            if todo_index@[i as int].source.page_name != tag_name@ {
                assert(pre.push(todo_index@[i as int]) =~= entries_without_page(
                    todo_index@.take(i as int + 1),
                    tag_name@,
                ));
            } else {
                assert(result.deep_view() =~= entries_without_page(
                    todo_index@.take(i as int + 1),
                    tag_name@,
                ));
            }
        }
        i += 1;
    }
    proof {
        assert(todo_index@.take(todo_index.entries.len() as int) =~= todo_index@);
    }
    TodoIndex { entries: result }
}

/// A task is open exactly when its todo token's payload is a single space
/// character; every other payload yields the done state.
pub proof fn lemma_state_open_iff_space(payload: Seq<char>)
    ensures
        (spec_state_from_payload(payload) == TodoState::Todo) <==> payload == seq![' '],
{
}

/// A page contributes exactly one entry per task block it holds.
pub proof fn lemma_page_entries_count(
    page_id: PageIdModel,
    page_type: PageType,
    name: Seq<char>,
    blocks: Seq<BlockModel>,
)
    ensures
        page_entries(page_id, page_type, name, blocks).len() == count_todo_blocks(blocks),
    decreases blocks.len(),
{
    if blocks.len() > 0 {
        lemma_page_entries_count(page_id, page_type, name, blocks.drop_last());
    }
}

proof fn lemma_scan_user_pages_count(pages: Seq<(Seq<char>, Seq<BlockModel>)>)
    ensures
        scan_user_pages(pages).len() == count_snapshot_todo_blocks(pages),
    decreases pages.len(),
{
    if pages.len() > 0 {
        lemma_scan_user_pages_count(pages.drop_last());
        lemma_page_entries_count(
            user_page_id(pages.last().0),
            PageType::UserPage,
            pages.last().0,
            pages.last().1,
        );
    }
}

proof fn lemma_scan_journal_pages_count(pages: Seq<(Seq<char>, Seq<BlockModel>)>)
    ensures
        scan_journal_pages(pages).len() == count_snapshot_todo_blocks(pages),
    decreases pages.len(),
{
    if pages.len() > 0 {
        lemma_scan_journal_pages_count(pages.drop_last());
        lemma_page_entries_count(
            journal_page_id(pages.last().0),
            PageType::UserPage,
            pages.last().0,
            pages.last().1,
        );
    }
}

/// The full index contains exactly one entry per task block of the
/// snapshot, across both namespaces.
pub proof fn lemma_full_index_count(
    user: Seq<(Seq<char>, Seq<BlockModel>)>,
    journal: Seq<(Seq<char>, Seq<BlockModel>)>,
)
    ensures
        full_index(user, journal).len() == count_snapshot_todo_blocks(user)
            + count_snapshot_todo_blocks(journal),
{
    lemma_scan_user_pages_count(user);
    lemma_scan_journal_pages_count(journal);
}

/// How an index entry relates to the scanned block sequence it came from:
/// its source carries the scan's page id, name and namespace marker; its
/// block number is the 0-based position of a task block in the sequence; it
/// holds that block's content; and its state is the one the block's first
/// token's payload denotes.
pub open spec fn entry_matches_block(
    page_id: PageIdModel,
    page_type: PageType,
    name: Seq<char>,
    blocks: Seq<BlockModel>,
    e: EntryModel,
) -> bool {
    &&& e.source.page_id == page_id
    &&& e.source.page_name == name
    &&& e.source.page_type == page_type
    &&& e.source.blocknumber < blocks.len()
    &&& block_is_todo(blocks[e.source.blocknumber as int])
    &&& e.block == blocks[e.source.blocknumber as int]
    &&& e.state == spec_state_from_payload(
        blocks[e.source.blocknumber as int].content[0].as_tokens[0].payload,
    )
}

/// Every entry a page contributes describes a task block of that page, at
/// the block's own 0-based position.
pub proof fn lemma_page_entries_describe_blocks(
    page_id: PageIdModel,
    page_type: PageType,
    name: Seq<char>,
    blocks: Seq<BlockModel>,
)
    ensures
        forall|k: int|
            0 <= k < page_entries(page_id, page_type, name, blocks).len()
                ==> entry_matches_block(
                page_id,
                page_type,
                name,
                blocks,
                #[trigger] page_entries(page_id, page_type, name, blocks)[k],
            ),
    decreases blocks.len(),
{
    if blocks.len() > 0 {
        let d = blocks.drop_last();
        lemma_page_entries_describe_blocks(page_id, page_type, name, d);
        let prefix = page_entries(page_id, page_type, name, d);
        let total = page_entries(page_id, page_type, name, blocks);
        assert forall|k: int|
            0 <= k < total.len() implies entry_matches_block(
            page_id,
            page_type,
            name,
            blocks,
            total[k],
        ) by {
            if k < prefix.len() {
                assert(total[k] == prefix[k]);
                assert(entry_matches_block(page_id, page_type, name, d, prefix[k]));
                let bn = prefix[k].source.blocknumber as int;
                assert(blocks[bn] == d[bn]);
            } else {
                assert(block_is_todo(blocks.last()));
                assert(total[k] == todo_entry(
                    page_id,
                    page_type,
                    name,
                    blocks.last(),
                    (blocks.len() - 1) as nat,
                    stack_after(blocks),
                ));
            }
        }
    }
}

/// An entry is tagged with a name when that name leads its tag sequence.
pub open spec fn entry_tagged_with(e: EntryModel, name: Seq<char>) -> bool {
    e.tags.len() >= 1 && e.tags[0] == name
}

/// Every entry a page contributes carries the scanned page's own name as
/// its first tag.
pub proof fn lemma_page_entries_tags_start_with_page_name(
    page_id: PageIdModel,
    page_type: PageType,
    name: Seq<char>,
    blocks: Seq<BlockModel>,
)
    ensures
        forall|k: int|
            0 <= k < page_entries(page_id, page_type, name, blocks).len() ==> entry_tagged_with(
                #[trigger] page_entries(page_id, page_type, name, blocks)[k],
                name,
            ),
    decreases blocks.len(),
{
    if blocks.len() > 0 {
        let d = blocks.drop_last();
        lemma_page_entries_tags_start_with_page_name(page_id, page_type, name, d);
        let prefix = page_entries(page_id, page_type, name, d);
        let total = page_entries(page_id, page_type, name, blocks);
        assert forall|k: int| 0 <= k < total.len() implies entry_tagged_with(total[k], name) by {
            if k < prefix.len() {
                assert(total[k] == prefix[k]);
                assert(entry_tagged_with(prefix[k], name));
            } else {
                assert(total[k].tags == tag_set(name, stack_after(blocks)));
                assert(total[k].tags[0] == name);
            }
        }
    }
}

proof fn lemma_scan_user_pages_tagged(pages: Seq<(Seq<char>, Seq<BlockModel>)>)
    ensures
        forall|k: int|
            0 <= k < scan_user_pages(pages).len() ==> entry_tagged_with(
                #[trigger] scan_user_pages(pages)[k],
                scan_user_pages(pages)[k].source.page_name,
            ),
    decreases pages.len(),
{
    if pages.len() > 0 {
        let d = pages.drop_last();
        lemma_scan_user_pages_tagged(d);
        let pid = user_page_id(pages.last().0);
        lemma_page_entries_describe_blocks(pid, PageType::UserPage, pages.last().0, pages.last().1);
        lemma_page_entries_tags_start_with_page_name(
            pid,
            PageType::UserPage,
            pages.last().0,
            pages.last().1,
        );
        let prefix = scan_user_pages(d);
        let total = scan_user_pages(pages);
        let part = page_entries(pid, PageType::UserPage, pages.last().0, pages.last().1);
        assert forall|k: int|
            0 <= k < total.len() implies entry_tagged_with(
            total[k],
            total[k].source.page_name,
        ) by {
            if k < prefix.len() {
                assert(total[k] == prefix[k]);
                assert(entry_tagged_with(prefix[k], prefix[k].source.page_name));
            } else {
                assert(total[k] == part[k - prefix.len()]);
                assert(entry_matches_block(
                    pid,
                    PageType::UserPage,
                    pages.last().0,
                    pages.last().1,
                    part[k - prefix.len()],
                ));
                assert(entry_tagged_with(part[k - prefix.len()], pages.last().0));
            }
        }
    }
}

proof fn lemma_scan_journal_pages_tagged(pages: Seq<(Seq<char>, Seq<BlockModel>)>)
    ensures
        forall|k: int|
            0 <= k < scan_journal_pages(pages).len() ==> entry_tagged_with(
                #[trigger] scan_journal_pages(pages)[k],
                scan_journal_pages(pages)[k].source.page_name,
            ),
    decreases pages.len(),
{
    if pages.len() > 0 {
        let d = pages.drop_last();
        lemma_scan_journal_pages_tagged(d);
        let pid = journal_page_id(pages.last().0);
        lemma_page_entries_describe_blocks(pid, PageType::UserPage, pages.last().0, pages.last().1);
        lemma_page_entries_tags_start_with_page_name(
            pid,
            PageType::UserPage,
            pages.last().0,
            pages.last().1,
        );
        let prefix = scan_journal_pages(d);
        let total = scan_journal_pages(pages);
        let part = page_entries(pid, PageType::UserPage, pages.last().0, pages.last().1);
        assert forall|k: int|
            0 <= k < total.len() implies entry_tagged_with(
            total[k],
            total[k].source.page_name,
        ) by {
            if k < prefix.len() {
                assert(total[k] == prefix[k]);
                assert(entry_tagged_with(prefix[k], prefix[k].source.page_name));
            } else {
                assert(total[k] == part[k - prefix.len()]);
                assert(entry_matches_block(
                    pid,
                    PageType::UserPage,
                    pages.last().0,
                    pages.last().1,
                    part[k - prefix.len()],
                ));
                assert(entry_tagged_with(part[k - prefix.len()], pages.last().0));
            }
        }
    }
}

/// Every entry of the full index carries its own scanned page's name as its
/// first tag.
pub proof fn lemma_full_index_tags_include_page_name(
    user: Seq<(Seq<char>, Seq<BlockModel>)>,
    journal: Seq<(Seq<char>, Seq<BlockModel>)>,
)
    ensures
        forall|k: int|
            0 <= k < full_index(user, journal).len() ==> entry_tagged_with(
                #[trigger] full_index(user, journal)[k],
                full_index(user, journal)[k].source.page_name,
            ),
{
    lemma_scan_user_pages_tagged(user);
    lemma_scan_journal_pages_tagged(journal);
    let u = scan_user_pages(user);
    let j = scan_journal_pages(journal);
    let total = full_index(user, journal);
    assert forall|k: int|
        0 <= k < total.len() implies entry_tagged_with(total[k], total[k].source.page_name) by {
        if k < u.len() {
            assert(total[k] == u[k]);
            assert(entry_tagged_with(u[k], u[k].source.page_name));
        } else {
            assert(total[k] == j[k - u.len()]);
            assert(entry_tagged_with(j[k - u.len()], j[k - u.len()].source.page_name));
        }
    }
}

/// No entry of the removed page survives a removal.
pub proof fn lemma_without_page_excludes_name(entries: Seq<EntryModel>, name: Seq<char>)
    ensures
        forall|k: int|
            0 <= k < entries_without_page(entries, name).len() ==> (#[trigger] entries_without_page(
                entries,
                name,
            )[k]).source.page_name != name,
    decreases entries.len(),
{
    if entries.len() > 0 {
        lemma_without_page_excludes_name(entries.drop_last(), name);
    }
}

proof fn lemma_entries_without_page_push(s: Seq<EntryModel>, x: EntryModel, name: Seq<char>)
    ensures
        entries_without_page(s.push(x), name) == entries_without_page(s, name) + if x.source.page_name
            != name {
            seq![x]
        } else {
            Seq::<EntryModel>::empty()
        },
{
    assert(s.push(x).drop_last() =~= s);
    assert(s.push(x).last() == x);
}

/// Removing a page's entries twice is the same as removing them once.
pub proof fn lemma_without_page_idempotent(entries: Seq<EntryModel>, name: Seq<char>)
    ensures
        entries_without_page(entries_without_page(entries, name), name) == entries_without_page(
            entries,
            name,
        ),
    decreases entries.len(),
{
    if entries.len() > 0 {
        let d = entries.drop_last();
        let x = entries.last();
        lemma_without_page_idempotent(d, name);
        if x.source.page_name != name {
            assert(entries_without_page(d, name) + seq![x] =~= entries_without_page(
                d,
                name,
            ).push(x));
            lemma_entries_without_page_push(entries_without_page(d, name), x, name);
            assert(entries_without_page(entries_without_page(d, name), name) + seq![x]
                =~= entries_without_page(d, name) + seq![x]);
        } else {
            assert(entries_without_page(d, name) + Seq::<EntryModel>::empty()
                =~= entries_without_page(d, name));
        }
    }
}


} // verus!
