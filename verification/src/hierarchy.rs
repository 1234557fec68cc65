//! The hierarchy tracker: consumes a page's blocks in document order and
//! maintains a stack of open ancestor frames keyed by indentation depth, so
//! that the tag set of the block just observed (its page plus the page
//! references contributed by still-open ancestors, the block's own line
//! included) can be read off at any point.
//!
//! Blocks must be fed in strict document order; the contracts here describe
//! the stack evolution for exactly that discipline.

use vstd::prelude::*;

use crate::model::{BlockModel, BlockTokenType, ContentModel, ParsedBlock, SimplePageName,
    TokenModel};

verus! {

/// Whether a token contributes a contextual tag: references to other pages
/// are carried by link and journal-link tokens, whose payload is the
/// referenced page's name.
pub open spec fn token_is_tag(t: TokenModel) -> bool {
    t.block_token_type == BlockTokenType::LINK || t.block_token_type == BlockTokenType::JOURNALLINK
}

/// The page names contributed by the tokens of one content line, in token
/// order.
pub open spec fn line_tags(tokens: Seq<TokenModel>) -> Seq<Seq<char>>
    decreases tokens.len(),
{
    if tokens.len() == 0 {
        Seq::empty()
    } else {
        line_tags(tokens.drop_last()) + if token_is_tag(tokens.last()) {
            seq![tokens.last().payload]
        } else {
            Seq::<Seq<char>>::empty()
        }
    }
}

/// The page names contributed by all content lines of one block, lines in
/// document order. Duplicates are retained.
pub open spec fn block_tags(content: Seq<ContentModel>) -> Seq<Seq<char>>
    decreases content.len(),
{
    if content.len() == 0 {
        Seq::empty()
    } else {
        block_tags(content.drop_last()) + line_tags(content.last().as_tokens)
    }
}

/// One open ancestor frame: the indentation it was opened at and the tags its
/// block contributed.
pub struct HierarchyElement {
    pub indentation: usize,
    pub tags: Vec<SimplePageName>,
}

/// Model of a [`HierarchyElement`].
#[verifier::ext_equal]
pub struct FrameModel {
    pub indentation: nat,
    pub tags: Seq<Seq<char>>,
}

impl View for HierarchyElement {
    type V = FrameModel;

    open spec fn view(&self) -> FrameModel {
        FrameModel { indentation: self.indentation as nat, tags: self.tags.deep_view() }
    }
}

impl DeepView for HierarchyElement {
    type V = FrameModel;

    open spec fn deep_view(&self) -> FrameModel {
        self@
    }
}

/// The stack after closing every frame whose indentation is greater than or
/// equal to that of a newly observed block: a shallower or equal depth
/// supersedes the sibling and child scopes above it.
pub open spec fn popped(stack: Seq<FrameModel>, indentation: nat) -> Seq<FrameModel>
    decreases stack.len(),
{
    if stack.len() == 0 {
        stack
    } else if stack.last().indentation >= indentation {
        popped(stack.drop_last(), indentation)
    } else {
        stack
    }
}

/// The stack after observing one more block in document order: superseded
/// frames are closed, then the block opens a frame of its own, carrying the
/// tags its lines contribute.
pub open spec fn fed(stack: Seq<FrameModel>, block: BlockModel) -> Seq<FrameModel> {
    popped(stack, block.indentation).push(
        FrameModel { indentation: block.indentation, tags: block_tags(block.content) },
    )
}

/// The stack after feeding a whole block sequence, starting from the empty
/// stack.
pub open spec fn stack_after(blocks: Seq<BlockModel>) -> Seq<FrameModel>
    decreases blocks.len(),
{
    if blocks.len() == 0 {
        Seq::empty()
    } else {
        fed(stack_after(blocks.drop_last()), blocks.last())
    }
}

/// The tags contributed by the still-open frames, in outer-to-inner order.
pub open spec fn frames_tags(stack: Seq<FrameModel>) -> Seq<Seq<char>>
    decreases stack.len(),
{
    if stack.len() == 0 {
        Seq::empty()
    } else {
        frames_tags(stack.drop_last()) + stack.last().tags
    }
}

/// The current tag set: the page's own name first, then the open frames'
/// tags in outer-to-inner order.
pub open spec fn tag_set(page_name: Seq<char>, stack: Seq<FrameModel>) -> Seq<Seq<char>> {
    seq![page_name] + frames_tags(stack)
}

proof fn lemma_line_tags_step(tokens: Seq<TokenModel>, j: int)
    requires
        0 <= j < tokens.len(),
    ensures
        line_tags(tokens.take(j + 1)) == line_tags(tokens.take(j)) + if token_is_tag(tokens[j]) {
            seq![tokens[j].payload]
        } else {
            Seq::<Seq<char>>::empty()
        },
{
    assert(tokens.take(j + 1).drop_last() =~= tokens.take(j));
    assert(tokens.take(j + 1).last() == tokens[j]);
}

proof fn lemma_block_tags_step(content: Seq<ContentModel>, i: int)
    requires
        0 <= i < content.len(),
    ensures
        block_tags(content.take(i + 1)) == block_tags(content.take(i)) + line_tags(
            content[i].as_tokens,
        ),
{
    assert(content.take(i + 1).drop_last() =~= content.take(i));
    assert(content.take(i + 1).last() == content[i]);
}

proof fn lemma_frames_tags_step(stack: Seq<FrameModel>, i: int)
    requires
        0 <= i < stack.len(),
    ensures
        frames_tags(stack.take(i + 1)) == frames_tags(stack.take(i)) + stack[i].tags,
{
    assert(stack.take(i + 1).drop_last() =~= stack.take(i));
    assert(stack.take(i + 1).last() == stack[i]);
}

/// The tags contributed by one block's lines, as fresh name values.
fn collect_block_tags(block: &ParsedBlock) -> (r: Vec<SimplePageName>)
    ensures
        r.deep_view() == block_tags(block@.content),
{
    let mut tags: Vec<SimplePageName> = Vec::new();
    let mut i: usize = 0;
    proof {
        assert(tags.deep_view() =~= block_tags(block@.content.take(0)));
    }
    while i < block.content.len()
        invariant
            i <= block.content.len(),
            tags.deep_view() == block_tags(block@.content.take(i as int)),
        decreases block.content.len() - i,
    {
        let line = &block.content[i];
        let mut j: usize = 0;
        while j < line.as_tokens.len()
            invariant
                i < block.content.len(),
                j <= line.as_tokens.len(),
                *line == block.content[i as int],
                tags.deep_view() == block_tags(block@.content.take(i as int)) + line_tags(
                    line@.as_tokens.take(j as int),
                ),
            decreases line.as_tokens.len() - j,
    {
            let token = &line.as_tokens[j];
            let ghost pre = tags.deep_view();
            let ghost a = block_tags(block@.content.take(i as int));
            let ghost b = line_tags(line@.as_tokens.take(j as int));
            if token.block_token_type == BlockTokenType::LINK || token.block_token_type
                == BlockTokenType::JOURNALLINK {
                tags.push(SimplePageName { name: token.payload.clone() });
                proof {
                    assert(tags.deep_view() =~= pre.push(line@.as_tokens[j as int].payload));
                    assert((a + b).push(line@.as_tokens[j as int].payload) =~= a + (b + seq![
                        line@.as_tokens[j as int].payload,
                    ]));
                }
            } else {
                proof {
                    assert(b + Seq::<Seq<char>>::empty() =~= b);
                }
            }
            proof {
                lemma_line_tags_step(line@.as_tokens, j as int);
                assert(tags.deep_view() == a + line_tags(line@.as_tokens.take(j as int + 1)));
            }
            j += 1;
        }
        proof {
            assert(line@.as_tokens.take(line.as_tokens.len() as int) =~= line@.as_tokens);
            lemma_block_tags_step(block@.content, i as int);
            assert(block@.content[i as int] == line@);
            assert(tags.deep_view() =~= block_tags(block@.content.take(i + 1)));
        }
        i += 1;
    }
    proof {
        assert(block@.content.take(block.content.len() as int) =~= block@.content);
    }
    tags
}

/// Incrementally tracks the open ancestor frames of the page being scanned.
///
/// Feed the page's blocks in strict document order; after each `feed`,
/// [`Self::get_current_tag_set`] returns the tag set that applies to the
/// block just observed.
pub struct HierarchyParser {
    pub page_name: SimplePageName,
    pub current_hierarchy: Vec<HierarchyElement>,
}

impl HierarchyParser {
    /// Consumes the next block in document order: closes every frame whose
    /// indentation the new block supersedes, then opens the block's own
    /// frame with the tags its lines contribute.
    pub fn feed(&mut self, block: &ParsedBlock)
        ensures
            final(self).page_name == old(self).page_name,
            final(self).current_hierarchy.deep_view() == fed(
                old(self).current_hierarchy.deep_view(),
                block@,
            ),
    {
        while self.current_hierarchy.len() > 0 && self.current_hierarchy[self.current_hierarchy.len()
            - 1].indentation >= block.indentation
            invariant
                self.page_name == old(self).page_name,
                popped(self.current_hierarchy.deep_view(), block@.indentation) == popped(
                    old(self).current_hierarchy.deep_view(),
                    block@.indentation,
                ),
            decreases self.current_hierarchy.len(),
    {
            let ghost pre = self.current_hierarchy.deep_view();
            self.current_hierarchy.pop();
            proof {
                assert(self.current_hierarchy.deep_view() =~= pre.drop_last());
                assert(popped(pre, block@.indentation) == popped(
                    pre.drop_last(),
                    block@.indentation,
                ));
            }
        }
        proof {
            assert(popped(self.current_hierarchy.deep_view(), block@.indentation)
                == self.current_hierarchy.deep_view());
        }
        let ghost settled = self.current_hierarchy.deep_view();
        let tags = collect_block_tags(block);
        self.current_hierarchy.push(HierarchyElement { indentation: block.indentation, tags });
        proof {
            assert(self.current_hierarchy.deep_view() =~= fed(
                old(self).current_hierarchy.deep_view(),
                block@,
            ));
        }
    }

    /// The tag set of the block last fed: the page's own name, then the tags
    /// of every still-open ancestor frame in outer-to-inner order.
    pub fn get_current_tag_set(&self) -> (r: Vec<SimplePageName>)
        ensures
            r.deep_view() == tag_set(self.page_name@, self.current_hierarchy.deep_view()),
    {
        let mut result: Vec<SimplePageName> = Vec::new();
        result.push(self.page_name.clone());
        let ghost stack = self.current_hierarchy.deep_view();
        proof {
            assert(result.deep_view() =~= seq![self.page_name@] + frames_tags(stack.take(0)));
        }
        let mut i: usize = 0;
        while i < self.current_hierarchy.len()
            invariant
                i <= self.current_hierarchy.len(),
                stack == self.current_hierarchy.deep_view(),
                result.deep_view() == seq![self.page_name@] + frames_tags(stack.take(i as int)),
            decreases self.current_hierarchy.len() - i,
    {
            let frame = &self.current_hierarchy[i];
            let mut j: usize = 0;
            while j < frame.tags.len()
                invariant
                    i < self.current_hierarchy.len(),
                    j <= frame.tags.len(),
                    stack == self.current_hierarchy.deep_view(),
                    *frame == self.current_hierarchy[i as int],
                    result.deep_view() == seq![self.page_name@] + frames_tags(stack.take(i as int))
                        + frame@.tags.take(j as int),
                decreases frame.tags.len() - j,
        {
                let ghost pre = result.deep_view();
                result.push(frame.tags[j].clone());
                proof {
                    let a = seq![self.page_name@] + frames_tags(stack.take(i as int));
                    assert(result.deep_view() =~= pre.push(frame@.tags[j as int]));
                    assert((a + frame@.tags.take(j as int)).push(frame@.tags[j as int]) =~= a
                        + frame@.tags.take(j as int + 1));
                }
                j += 1;
            }
            proof {
                assert(frame@.tags.take(frame.tags.len() as int) =~= frame@.tags);
                lemma_frames_tags_step(stack, i as int);
                assert(stack[i as int] == frame@);
                assert(result.deep_view() =~= seq![self.page_name@] + frames_tags(
                    stack.take(i + 1),
                ));
            }
            i += 1;
        }
        proof {
            assert(stack.take(self.current_hierarchy.len() as int) =~= stack);
        }
        result
    }
}

} // verus!

