//! Indexing core of a file-backed outline knowledge base.
//!
//! Pages are markdown-like documents made of nested outline blocks. This
//! crate derives secondary, queryable views from a read-only snapshot of the
//! page store: most importantly a cross-page index of task blocks, built with
//! an indentation-driven hierarchy tracker that computes the contextual tags
//! a block inherits from its outline ancestors.

pub mod config;
pub mod favourite;
pub mod hierarchy;
pub mod model;
pub mod page_index;
pub mod state;
pub mod todo;
