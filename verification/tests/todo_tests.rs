use looksyk::hierarchy::HierarchyParser;
use looksyk::model::{BlockContent, BlockToken, BlockTokenType, PageId, PageType, ParsedBlock,
    ParsedMarkdownFile, SimplePageName};
use looksyk::state::{JournalPageIndex, TodoSourceReference, TodoState, UserPageIndex};
use looksyk::todo::{create_todo_index, remove_file_from_todo_index, state_from_payload};

fn page_name_str(name: &str) -> SimplePageName {
    SimplePageName {
        name: name.to_string(),
    }
}

fn page_id(id: &str) -> PageId {
    PageId {
        page_type: PageType::UserPage,
        name: page_name_str(id),
    }
}

fn todo_token() -> BlockToken {
    BlockToken {
        block_token_type: BlockTokenType::TODO,
        payload: " ".to_string(),
    }
}

fn done_token() -> BlockToken {
    BlockToken {
        block_token_type: BlockTokenType::TODO,
        payload: "x".to_string(),
    }
}

fn any_text_token() -> BlockToken {
    BlockToken {
        block_token_type: BlockTokenType::TEXT,
        payload: "some text".to_string(),
    }
}

fn link_token(target: &str) -> BlockToken {
    BlockToken {
        block_token_type: BlockTokenType::LINK,
        payload: target.to_string(),
    }
}

fn empty_journal_index() -> JournalPageIndex {
    JournalPageIndex { entries: vec![] }
}

fn single_block_page(block: ParsedBlock) -> ParsedMarkdownFile {
    ParsedMarkdownFile {
        blocks: vec![block],
    }
}

fn todo_block(indentation: usize, tokens: Vec<BlockToken>) -> ParsedBlock {
    ParsedBlock {
        indentation,
        content: vec![BlockContent {
            as_tokens: tokens,
            as_text: "".to_string(),
        }],
    }
}

#[test]
pub fn non_todo_file_should_return_empty_index() {
    let data_state = vec![(
        page_name_str("testfile"),
        single_block_page(ParsedBlock {
            indentation: 0,
            content: vec![],
        }),
    )];

    let result = create_todo_index(
        &UserPageIndex {
            entries: data_state,
        },
        &empty_journal_index(),
    );

    assert_eq!(result.entries.len(), 0);
}

#[test]
pub fn todo_without_tags_should_insert_index_entry() {
    let data_state = vec![(
        page_name_str("testfile"),
        single_block_page(todo_block(0, vec![todo_token(), any_text_token()])),
    )];

    let result = create_todo_index(
        &UserPageIndex {
            entries: data_state,
        },
        &empty_journal_index(),
    );

    assert_eq!(result.entries.len(), 1);
    let entry = result.entries.get(0).unwrap();
    assert_eq!(entry.tags, vec![page_name_str("testfile")]);
    assert_eq!(entry.state, TodoState::Todo);
    assert_eq!(
        entry.source,
        TodoSourceReference {
            page_id: page_id("%%user-page/testfile"),
            page_name: page_name_str("testfile"),
            blocknumber: 0,
            page_type: PageType::UserPage,
        }
    )
}

#[test]
pub fn todo_done_without_tags_should_insert_index_entry() {
    let data_state = vec![(
        page_name_str("testfile"),
        single_block_page(todo_block(0, vec![done_token(), any_text_token()])),
    )];

    let result = create_todo_index(
        &UserPageIndex {
            entries: data_state,
        },
        &empty_journal_index(),
    );

    assert_eq!(result.entries.len(), 1);
    let entry = result.entries.get(0).unwrap();
    assert_eq!(entry.tags, vec![page_name_str("testfile")]);
    assert_eq!(entry.state, TodoState::Done);
    assert_eq!(
        entry.source,
        TodoSourceReference {
            page_id: page_id("%%user-page/testfile"),
            page_name: page_name_str("testfile"),
            blocknumber: 0,
            page_type: PageType::UserPage,
        }
    )
}

#[test]
fn state_from_payload_maps_exactly_one_space_to_open() {
    assert_eq!(state_from_payload(&" ".to_string()), TodoState::Todo);
    assert_eq!(state_from_payload(&"x".to_string()), TodoState::Done);
    assert_eq!(state_from_payload(&"".to_string()), TodoState::Done);
    assert_eq!(state_from_payload(&"  ".to_string()), TodoState::Done);
    assert_eq!(state_from_payload(&"X".to_string()), TodoState::Done);
}

#[test]
fn nested_todo_inherits_ancestor_tags() {
    let page = ParsedMarkdownFile {
        blocks: vec![
            ParsedBlock {
                indentation: 0,
                content: vec![BlockContent {
                    as_tokens: vec![link_token("Proj"), any_text_token()],
                    as_text: "".to_string(),
                }],
            },
            todo_block(1, vec![todo_token()]),
        ],
    };
    let data_state = vec![(page_name_str("testfile"), page)];

    let result = create_todo_index(
        &UserPageIndex {
            entries: data_state,
        },
        &empty_journal_index(),
    );

    assert_eq!(result.entries.len(), 1);
    let entry = result.entries.get(0).unwrap();
    assert_eq!(entry.source.blocknumber, 1);
    assert_eq!(
        entry.tags,
        vec![page_name_str("testfile"), page_name_str("Proj")]
    );
}

#[test]
fn sibling_todo_does_not_inherit_closed_scopes() {
    let mut tracker = HierarchyParser {
        page_name: page_name_str("testfile"),
        current_hierarchy: vec![],
    };

    tracker.feed(&ParsedBlock {
        indentation: 0,
        content: vec![BlockContent {
            as_tokens: vec![link_token("Proj")],
            as_text: "".to_string(),
        }],
    });
    tracker.feed(&todo_block(1, vec![todo_token()]));
    assert_eq!(
        tracker.get_current_tag_set(),
        vec![page_name_str("testfile"), page_name_str("Proj")]
    );

    // An equally deep sibling closes the previous top-level scope entirely.
    tracker.feed(&ParsedBlock {
        indentation: 0,
        content: vec![BlockContent {
            as_tokens: vec![any_text_token()],
            as_text: "".to_string(),
        }],
    });
    assert_eq!(tracker.get_current_tag_set(), vec![page_name_str("testfile")]);
}

#[test]
fn journal_entries_carry_journal_id_but_user_namespace_marker() {
    let journal_state = vec![(
        page_name_str("2024_01_15"),
        single_block_page(todo_block(0, vec![todo_token()])),
    )];

    let result = create_todo_index(
        &UserPageIndex { entries: vec![] },
        &JournalPageIndex {
            entries: journal_state,
        },
    );

    assert_eq!(result.entries.len(), 1);
    let entry = result.entries.get(0).unwrap();
    assert_eq!(entry.source.page_name, page_name_str("2024_01_15"));
    // The page id lives in the journal namespace with the journal prefix...
    assert_eq!(
        entry.source.page_id,
        PageId {
            page_type: PageType::JournalPage,
            name: page_name_str("%%journal-page/2024_01_15"),
        }
    );
    // ...while the source's namespace marker keeps the inherited general-page
    // labelling of the full-index build.
    assert_eq!(entry.source.page_type, PageType::UserPage);
}

#[test]
fn full_index_has_one_entry_per_todo_block() {
    let data_state = vec![
        (
            page_name_str("a"),
            ParsedMarkdownFile {
                blocks: vec![
                    todo_block(0, vec![todo_token()]),
                    ParsedBlock {
                        indentation: 0,
                        content: vec![BlockContent {
                            as_tokens: vec![any_text_token()],
                            as_text: "".to_string(),
                        }],
                    },
                    todo_block(0, vec![done_token()]),
                ],
            },
        ),
        (
            page_name_str("b"),
            ParsedMarkdownFile { blocks: vec![] },
        ),
    ];
    let journal_state = vec![(
        page_name_str("2024_02_02"),
        single_block_page(todo_block(0, vec![todo_token()])),
    )];

    let result = create_todo_index(
        &UserPageIndex {
            entries: data_state,
        },
        &JournalPageIndex {
            entries: journal_state,
        },
    );

    assert_eq!(result.entries.len(), 3);
    assert_eq!(result.entries[0].source.blocknumber, 0);
    assert_eq!(result.entries[0].state, TodoState::Todo);
    assert_eq!(result.entries[1].source.blocknumber, 2);
    assert_eq!(result.entries[1].state, TodoState::Done);
    assert_eq!(result.entries[2].source.page_name, page_name_str("2024_02_02"));
}

#[test]
fn remove_file_keeps_exactly_the_other_pages() {
    let data_state = vec![
        (
            page_name_str("A"),
            single_block_page(todo_block(0, vec![todo_token()])),
        ),
        (
            page_name_str("B"),
            single_block_page(todo_block(0, vec![done_token()])),
        ),
    ];

    let index = create_todo_index(
        &UserPageIndex {
            entries: data_state,
        },
        &empty_journal_index(),
    );
    assert_eq!(index.entries.len(), 2);

    let without_a = remove_file_from_todo_index(&index, &page_name_str("A"));
    assert_eq!(without_a.entries.len(), 1);
    let survivor = without_a.entries.get(0).unwrap();
    assert_eq!(survivor.source.page_name, page_name_str("B"));
    assert_eq!(survivor.state, TodoState::Done);
    assert_eq!(survivor.source.page_id, page_id("%%user-page/B"));

    // Removing the same page again changes nothing.
    let again = remove_file_from_todo_index(&without_a, &page_name_str("A"));
    assert_eq!(again.entries.len(), 1);
    assert_eq!(
        again.entries.get(0).unwrap().source.page_name,
        page_name_str("B")
    );
}

#[test]
fn remove_file_goes_by_name_across_namespaces() {
    let data_state = vec![(
        page_name_str("Foo"),
        single_block_page(todo_block(0, vec![todo_token()])),
    )];
    let journal_state = vec![(
        page_name_str("Foo"),
        single_block_page(todo_block(0, vec![done_token()])),
    )];

    let index = create_todo_index(
        &UserPageIndex {
            entries: data_state,
        },
        &JournalPageIndex {
            entries: journal_state,
        },
    );
    assert_eq!(index.entries.len(), 2);

    let removed = remove_file_from_todo_index(&index, &page_name_str("Foo"));
    assert_eq!(removed.entries.len(), 0);
}
