use std::collections::hash_map::DefaultHasher;
use std::hash::{Hash, Hasher};

use looksyk::model::{PageId, PageType, SimplePageName};

fn page_name_str(name: &str) -> SimplePageName {
    SimplePageName {
        name: name.to_string(),
    }
}

fn hash_of<T: Hash>(value: &T) -> u64 {
    let mut hasher = DefaultHasher::new();
    value.hash(&mut hasher);
    hasher.finish()
}

#[test]
fn test_journal_page_id_should_be_a_journal_page() {
    let page_id = PageId {
        page_type: PageType::JournalPage,
        name: page_name_str("my-page"),
    };
    assert!(!page_id.is_user_page());
}

#[test]
fn test_user_page_id_should_be_a_user_page() {
    let page_id = PageId {
        page_type: PageType::UserPage,
        name: page_name_str("my-page"),
    };
    assert!(page_id.is_user_page());
}

#[test]
fn test_as_journal_page_id_should_be_journal_page_id() {
    let page_id = page_name_str("my-page").as_journal_page();
    assert_eq!(page_id.page_type, PageType::JournalPage);
}

#[test]
fn test_as_user_page_id_should_be_user_page_id() {
    let page_id = page_name_str("my-page").as_user_page();
    assert_eq!(page_id.page_type, PageType::UserPage);
}

#[test]
fn as_page_id_uses_the_given_namespace() {
    let journal = page_name_str("my-page").as_page_id(&PageType::JournalPage);
    assert_eq!(journal.page_type, PageType::JournalPage);
    assert_eq!(journal.name.name, "my-page");

    let user = page_name_str("my-page").as_page_id(&PageType::UserPage);
    assert_eq!(user.page_type, PageType::UserPage);
    assert_eq!(user.name.name, "my-page");
}

#[test]
fn page_ids_with_equal_names_hash_identically_across_namespaces() {
    let user = PageId {
        page_type: PageType::UserPage,
        name: page_name_str("my-page"),
    };
    let journal = PageId {
        page_type: PageType::JournalPage,
        name: page_name_str("my-page"),
    };

    assert_ne!(user, journal);
    assert_eq!(hash_of(&user), hash_of(&journal));
    assert_eq!(hash_of(&user), hash_of(&page_name_str("my-page")));

    let other = PageId {
        page_type: PageType::UserPage,
        name: page_name_str("other-page"),
    };
    assert_ne!(hash_of(&user), hash_of(&other));
}
