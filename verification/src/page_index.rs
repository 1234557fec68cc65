//! Namespaced page ids for index source references.
//!
//! When the todo index records where an entry came from, the page id's name
//! carries a namespace prefix, so that ids from the two namespaces stay
//! distinguishable as plain strings.

use vstd::prelude::*;
use vstd::string::StringExecFns;

use crate::model::{PageId, PageIdModel, PageType, SimplePageName};

verus! {

/// The id a general page is recorded under: the user-page prefix before the
/// plain name, in the user-page namespace.
pub open spec fn user_page_id(name: Seq<char>) -> PageIdModel {
    PageIdModel { page_type: PageType::UserPage, name: "%%user-page/"@ + name }
}

/// The id a journal page is recorded under: the journal-page prefix before
/// the plain name, in the journal-page namespace.
pub open spec fn journal_page_id(name: Seq<char>) -> PageIdModel {
    PageIdModel { page_type: PageType::JournalPage, name: "%%journal-page/"@ + name }
}

/// Prefixes a plain page name into its user-page id.
pub fn append_user_page_prefix(simple_page_name: &SimplePageName) -> (r: PageId)
    ensures
        r@ == user_page_id(simple_page_name@),
{
    PageId {
        page_type: PageType::UserPage,
        name: SimplePageName {
            name: String::from_str("%%user-page/").concat(simple_page_name.name.as_str()),
        },
    }
}

/// Prefixes a plain page name into its journal-page id.
pub fn append_journal_page_prefix(simple_page_name: &SimplePageName) -> (r: PageId)
    ensures
        r@ == journal_page_id(simple_page_name@),
{
    PageId {
        page_type: PageType::JournalPage,
        name: SimplePageName {
            name: String::from_str("%%journal-page/").concat(simple_page_name.name.as_str()),
        },
    }
}

} // verus!
