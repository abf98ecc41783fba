//! Chat messages made of blocks of Markdown text.

use vstd::prelude::*;

verus! {

/// The kinds of block a message is made of.
#[derive(Debug, Clone, Copy, PartialEq, Eq, Structural)]
pub enum MessageBlockType {
    Section,
    Context,
}

/// The kinds of text a block holds.
#[derive(Debug, Clone, Copy, PartialEq, Eq, Structural)]
pub enum MessageType {
    Markdown,
}

/// A text of a block.
#[derive(Debug, Clone, PartialEq, Eq)]
pub struct MessageBlockText {
    pub text_type: MessageType,
    pub text: String,
}

/// A block of a message: a section with one text, or a context with a
/// list of texts.
#[derive(Debug, Clone, PartialEq, Eq)]
pub struct MessageBlock {
    pub block_type: MessageBlockType,
    pub text: Option<MessageBlockText>,
    pub elements: Option<Vec<MessageBlockText>>,
}

/// A message: its blocks, and the channel it is meant for where that is
/// decided.
#[derive(Debug, Clone, PartialEq, Eq)]
pub struct FormattedMessage {
    pub channel: Option<String>,
    pub blocks: Option<Vec<MessageBlock>>,
}

/// The mathematical content of a block.
pub struct BlockView {
    pub block_type: MessageBlockType,
    pub text: Option<Seq<char>>,
    pub elements: Option<Seq<Seq<char>>>,
}

/// The mathematical content of a message.
pub struct MessageView {
    pub channel: Option<Seq<char>>,
    pub blocks: Option<Seq<BlockView>>,
}

/// The texts of a list of block texts.
pub open spec fn element_texts(elements: Seq<MessageBlockText>) -> Seq<Seq<char>> {
    elements.map_values(|e: MessageBlockText| e.text@)
}

impl View for MessageBlock {
    type V = BlockView;

    open spec fn view(&self) -> BlockView {
        BlockView {
            block_type: self.block_type,
            text: match self.text {
                Some(t) => Some(t.text@),
                None => None,
            },
            elements: match self.elements {
                Some(e) => Some(element_texts(e@)),
                None => None,
            },
        }
    }
}

/// The views of a list of blocks.
pub open spec fn block_views(blocks: Seq<MessageBlock>) -> Seq<BlockView> {
    blocks.map_values(|b: MessageBlock| b@)
}

impl View for FormattedMessage {
    type V = MessageView;

    open spec fn view(&self) -> MessageView {
        MessageView {
            channel: match self.channel {
                Some(c) => Some(c@),
                None => None,
            },
            blocks: match self.blocks {
                Some(b) => Some(block_views(b@)),
                None => None,
            },
        }
    }
}

/// A section block with the given text.
pub open spec fn section_block(text: Seq<char>) -> BlockView {
    BlockView { block_type: MessageBlockType::Section, text: Some(text), elements: None }
}

/// A context block with the given text as its one element.
pub open spec fn context_block(text: Seq<char>) -> BlockView {
    BlockView { block_type: MessageBlockType::Context, text: None, elements: Some(seq![text]) }
}

/// A block without content: a section with no text.
pub open spec fn empty_block() -> BlockView {
    BlockView { block_type: MessageBlockType::Section, text: None, elements: None }
}

/// A message of the given blocks, for no channel in particular.
pub open spec fn message_of(blocks: Seq<BlockView>) -> MessageView {
    MessageView { channel: None, blocks: Some(blocks) }
}

/// A section block with the given text.
pub fn section(text: String) -> (block: MessageBlock)
    ensures
        block@ == section_block(text@),
{
    MessageBlock {
        block_type: MessageBlockType::Section,
        text: Some(MessageBlockText { text_type: MessageType::Markdown, text }),
        elements: None,
    }
}

/// A context block with the given text as its one element.
pub fn context(text: String) -> (block: MessageBlock)
    ensures
        block@ == context_block(text@),
{
    let mut elements: Vec<MessageBlockText> = Vec::new();
    elements.push(MessageBlockText { text_type: MessageType::Markdown, text });
    assert(element_texts(elements@) =~= seq![text@]);
    MessageBlock { block_type: MessageBlockType::Context, text: None, elements: Some(elements) }
}

/// A block without content.
pub fn empty() -> (block: MessageBlock)
    ensures
        block@ == empty_block(),
{
    MessageBlock { block_type: MessageBlockType::Section, text: None, elements: None }
}

/// A message of the given blocks, for no channel in particular.
pub fn message(blocks: Vec<MessageBlock>) -> (m: FormattedMessage)
    ensures
        m@ == message_of(block_views(blocks@)),
{
    FormattedMessage { channel: None, blocks: Some(blocks) }
}

} // verus!
