//! The block/page data model every derived view is built from.
//!
//! Pages are ordered sequences of outline blocks; a block carries an
//! indentation depth and ordered content lines, each line an ordered sequence
//! of typed tokens. Page identity lives in two disjoint namespaces (general
//! user pages and date-keyed journal pages).
//!
//! Each type that the index logic reads has a mathematical model (`…Model`)
//! reached through `View`/`DeepView`; all contracts in this crate are stated
//! over those models.

use vstd::prelude::*;

verus! {

/// A not-yet-parsed outline block: indentation plus raw text lines.
#[derive(Clone, Debug)]
pub struct RawBlock {
    pub indentation: usize,
    pub text_content: Vec<String>,
}

/// A parsed outline block: indentation plus tokenised content lines.
pub struct ParsedBlock {
    pub indentation: usize,
    pub content: Vec<BlockContent>,
}

/// A block prepared for rendering.
#[derive(Clone)]
pub struct PreparedBlock {
    pub indentation: usize,
    pub content: PreparedBlockContent,
    pub referenced_markdown: Vec<PreparedReferencedMarkdown>,
    pub has_dynamic_content: bool,
}

/// Rendered forms of one block's content.
#[derive(Clone)]
pub struct PreparedBlockContent {
    pub original_text: String,
    pub prepared_markdown: String,
}

/// One content line of a block: raw text plus the tokens parsed from it.
#[derive(Debug)]
pub struct BlockContent {
    pub as_text: String,
    pub as_tokens: Vec<BlockToken>,
}

/// The kind of a parsed token within a content line.
#[allow(non_camel_case_types)]
#[derive(Clone, Copy, PartialEq, Eq, Structural, Debug, Hash)]
pub enum BlockTokenType {
    TEXT,
    LINK,
    JOURNALLINK,
    QUERY,
    TODO,
}

/// A typed token with its free-form payload. For `TODO` tokens the payload is
/// the checkbox state marker; for link tokens it names the referenced page.
#[derive(Debug, PartialEq)]
pub struct BlockToken {
    pub block_token_type: BlockTokenType,
    pub payload: String,
}

/// A whole page, prepared for rendering.
#[derive(Clone)]
pub struct PreparedMarkdownFile {
    pub blocks: Vec<PreparedBlock>,
}

/// A whole page as raw blocks.
#[derive(Clone)]
pub struct RawMarkdownFile {
    pub blocks: Vec<RawBlock>,
}

/// A whole page as parsed blocks, in document order.
pub struct ParsedMarkdownFile {
    pub blocks: Vec<ParsedBlock>,
}

/// An edit to a single block.
pub struct UpdateBlock {
    pub markdown: String,
    pub reference: MarkdownReference,
}

/// An edit replacing a whole page.
pub struct UpdateMarkdownFile {
    pub blocks: Vec<RawBlock>,
}

/// The rendered result of a query token.
pub struct QueryRenderResult {
    pub inplace_markdown: String,
    pub referenced_markdown: Vec<ReferencedMarkdown>,
    pub has_dynamic_content: bool,
}

/// A block of another page, referenced by a query result.
pub struct ReferencedMarkdown {
    pub content: ParsedBlock,
    pub reference: MarkdownReference,
}

/// Where a referenced block lives: a page and a 0-based block position.
#[derive(Clone)]
pub struct MarkdownReference {
    pub page_id: PageId,
    pub block_number: usize,
}

/// A referenced block, prepared for rendering.
#[derive(Clone)]
pub struct PreparedReferencedMarkdown {
    pub content: PreparedBlockContent,
    pub reference: MarkdownReference,
}

/// The two disjoint page namespaces: general pages and date-keyed journal
/// pages.
#[derive(Clone, Copy, PartialEq, Eq, Structural, Debug)]
pub enum PageType {
    UserPage,
    JournalPage,
}

/// A page name: a case- and byte-sensitive string identifier, unique within
/// its namespace.
#[derive(Debug, PartialEq, Eq)]
pub struct SimplePageName {
    pub name: String,
}

/// A namespaced page identity. Structural equality compares both fields;
/// hashing, however, goes by the name alone (see the `Hash` impl).
#[derive(Debug, PartialEq, Eq)]
pub struct PageId {
    pub page_type: PageType,
    pub name: SimplePageName,
}

/// Model of a [`PageId`]: the namespace and the name's characters.
#[verifier::ext_equal]
pub struct PageIdModel {
    pub page_type: PageType,
    pub name: Seq<char>,
}

/// Model of a [`BlockToken`].
#[verifier::ext_equal]
pub struct TokenModel {
    pub block_token_type: BlockTokenType,
    pub payload: Seq<char>,
}

/// Model of a [`BlockContent`] line.
#[verifier::ext_equal]
pub struct ContentModel {
    pub as_text: Seq<char>,
    pub as_tokens: Seq<TokenModel>,
}

/// Model of a [`ParsedBlock`].
#[verifier::ext_equal]
pub struct BlockModel {
    pub indentation: nat,
    pub content: Seq<ContentModel>,
}

impl View for SimplePageName {
    type V = Seq<char>;

    open spec fn view(&self) -> Seq<char> {
        self.name@
    }
}

impl DeepView for SimplePageName {
    type V = Seq<char>;

    open spec fn deep_view(&self) -> Seq<char> {
        self@
    }
}

impl View for PageId {
    type V = PageIdModel;

    open spec fn view(&self) -> PageIdModel {
        PageIdModel { page_type: self.page_type, name: self.name@ }
    }
}

impl DeepView for PageId {
    type V = PageIdModel;

    open spec fn deep_view(&self) -> PageIdModel {
        self@
    }
}

impl View for BlockToken {
    type V = TokenModel;

    open spec fn view(&self) -> TokenModel {
        TokenModel { block_token_type: self.block_token_type, payload: self.payload@ }
    }
}

impl DeepView for BlockToken {
    type V = TokenModel;

    open spec fn deep_view(&self) -> TokenModel {
        self@
    }
}

impl View for BlockContent {
    type V = ContentModel;

    open spec fn view(&self) -> ContentModel {
        ContentModel { as_text: self.as_text@, as_tokens: self.as_tokens.deep_view() }
    }
}

impl DeepView for BlockContent {
    type V = ContentModel;

    open spec fn deep_view(&self) -> ContentModel {
        self@
    }
}

impl View for ParsedBlock {
    type V = BlockModel;

    open spec fn view(&self) -> BlockModel {
        BlockModel { indentation: self.indentation as nat, content: self.content.deep_view() }
    }
}

impl DeepView for ParsedBlock {
    type V = BlockModel;

    open spec fn deep_view(&self) -> BlockModel {
        self@
    }
}

impl View for ParsedMarkdownFile {
    type V = Seq<BlockModel>;

    open spec fn view(&self) -> Seq<BlockModel> {
        self.blocks.deep_view()
    }
}

impl DeepView for ParsedMarkdownFile {
    type V = Seq<BlockModel>;

    open spec fn deep_view(&self) -> Seq<BlockModel> {
        self@
    }
}

impl Clone for SimplePageName {
    fn clone(&self) -> (res: Self)
        ensures
            res == *self,
    {
        SimplePageName { name: self.name.clone() }
    }
}

impl Clone for PageId {
    fn clone(&self) -> (res: Self)
        ensures
            res == *self,
    {
        PageId { page_type: self.page_type, name: self.name.clone() }
    }
}

impl Clone for BlockToken {
    fn clone(&self) -> (res: Self)
        ensures
            res == *self,
    {
        BlockToken { block_token_type: self.block_token_type, payload: self.payload.clone() }
    }
}

impl Clone for BlockContent {
    fn clone(&self) -> (res: Self)
        ensures
            res@ == self@,
    {
        let as_tokens = self.as_tokens.clone();
        proof {
            assert forall|i: int|
                0 <= i < self.as_tokens@.len() implies as_tokens.deep_view()[i]
                == self.as_tokens.deep_view()[i] by {
                assert(cloned(self.as_tokens@[i], as_tokens@[i]));
            }
            assert(as_tokens.deep_view() =~= self.as_tokens.deep_view());
        }
        BlockContent { as_text: self.as_text.clone(), as_tokens }
    }
}

impl Clone for ParsedBlock {
    fn clone(&self) -> (res: Self)
        ensures
            res@ == self@,
    {
        let content = self.content.clone();
        proof {
            assert forall|i: int|
                0 <= i < self.content@.len() implies content.deep_view()[i]
                == self.content.deep_view()[i] by {
                assert(cloned(self.content@[i], content@[i]));
            }
            assert(content.deep_view() =~= self.content.deep_view());
        }
        ParsedBlock { indentation: self.indentation, content }
    }
}

impl core::hash::Hash for SimplePageName {
    /// Relies on `String`'s `Hash` impl: the digest is a function of the
    /// name's bytes alone.
    #[verifier::external_body]
    fn hash<H: core::hash::Hasher>(&self, state: &mut H) {
        self.name.hash(state)
    }
}

impl core::hash::Hash for PageId {
    /// Relies on `String`'s `Hash` impl. Deliberately hashes the name alone,
    /// ignoring the namespace: two ids with equal names but different
    /// namespaces hash identically though they are structurally unequal. This
    /// is an inherited contract of the index (set membership and index
    /// removal go by name), kept rather than silently corrected.
    #[verifier::external_body]
    fn hash<H: core::hash::Hasher>(&self, state: &mut H) {
        self.name.hash(state)
    }
}

impl SimplePageName {
    /// This name, addressed in the journal namespace.
    pub fn as_journal_page(&self) -> (r: PageId)
        ensures
            r@ == (PageIdModel { page_type: PageType::JournalPage, name: self@ }),
    {
        PageId { page_type: PageType::JournalPage, name: self.clone() }
    }

    /// This name, addressed in the general page namespace.
    pub fn as_user_page(&self) -> (r: PageId)
        ensures
            r@ == (PageIdModel { page_type: PageType::UserPage, name: self@ }),
    {
        PageId { page_type: PageType::UserPage, name: self.clone() }
    }

    /// This name, addressed in the given namespace.
    pub fn as_page_id(&self, page_type: &PageType) -> (r: PageId)
        ensures
            r@ == (PageIdModel { page_type: *page_type, name: self@ }),
    {
        PageId { page_type: *page_type, name: self.clone() }
    }
}

impl PageId {
    /// Whether this id lives in the general page namespace.
    pub fn is_user_page(&self) -> (r: bool)
        ensures
            r == (self.page_type == PageType::UserPage),
    {
        self.page_type == PageType::UserPage
    }
}

/// Two page ids with the same name but different namespaces are structurally
/// unequal values, even though they hash identically (see `PageId`'s `Hash`
/// impl).
pub proof fn lemma_page_id_namespaces_are_distinct(a: PageId, b: PageId)
    requires
        a.name@ == b.name@,
        a.page_type != b.page_type,
    ensures
        a != b,
{
}

} // verus!
