//! What a reply's content blocks decode to, whatever schema carried them.

use vstd::prelude::*;

verus! {

/// The kinds of reply content that are recognised but cannot be rendered.
#[derive(Debug, Clone, Copy, PartialEq, Eq, Structural)]
pub enum Modality {
    Image,
    Video,
    Document,
    ToolUse,
    ToolResult,
    GuardContent,
    /// A block of a kind that the schema does not name.
    Unknown,
}

/// Why a reply was refused. Every variant is fatal to the turn.
#[derive(Debug, Clone, PartialEq, Eq)]
pub enum DecodeError {
    /// The body did not parse as the reply's shape; the raw body is kept.
    MalformedPayload(String),
    /// The reply's message does not speak in the assistant's role.
    ProtocolViolation,
    /// The reply holds more than one text block.
    AmbiguousTextContent,
    /// The reply holds a block that is not text.
    UnsupportedOutputModality(Modality),
}

/// A content block as the decoder sees it: text, or something else.
pub enum Block {
    Text(Seq<char>),
    Other(Modality),
}

/// What a reply with these blocks displays. A reply without a block
/// displays nothing, and one with a single text displays that text. Any
/// other reply is refused for its first block that is out of place: a
/// block that is not text, or a second text. Nothing past the second
/// block can matter.
pub open spec fn display_text(blocks: Seq<Block>) -> Result<Seq<char>, DecodeError> {
    if blocks.len() == 0 {
        Ok(Seq::empty())
    } else {
        match blocks[0] {
            Block::Other(m) => Err(DecodeError::UnsupportedOutputModality(m)),
            Block::Text(t) => if blocks.len() == 1 {
                Ok(t)
            } else {
                match blocks[1] {
                    Block::Other(m) => Err(DecodeError::UnsupportedOutputModality(m)),
                    Block::Text(_) => Err(DecodeError::AmbiguousTextContent),
                }
            },
        }
    }
}

/// A reply is displayed exactly when it holds nothing, or one text and
/// nothing else.
pub proof fn lemma_displayed_iff_at_most_one_text(blocks: Seq<Block>)
    ensures
        display_text(blocks) is Ok <==> blocks.len() == 0 || (blocks.len() == 1
            && blocks[0] is Text),
{
}

} // verus!
