//! The text model's request and reply, field for field as the published
//! schema names them, and the decoding of a reply's message.

use crate::decode::{display_text, Block, DecodeError, Modality};
use vstd::prelude::*;

verus! {

#[derive(Debug, Clone, PartialEq, Eq)]
pub struct Request {
    /// Left out of the wire form where empty.
    pub system: Vec<SystemPrompt>,
    /// The first message speaks in the user's role.
    pub messages: Vec<Message>,
    /// Left out of the wire form where `is_empty` holds of it.
    pub inference_config: InferenceConfig,
}

#[derive(Debug, Clone, PartialEq, Eq)]
pub struct SystemPrompt {
    pub text: String,
}

#[derive(Debug, Clone, PartialEq, Eq)]
pub struct Message {
    pub role: Role,
    pub content: Vec<Content>,
}

#[derive(Debug, Clone, Copy, PartialEq, Eq, Structural)]
pub enum Role {
    User,
    Assistant,
}

#[derive(Debug, Clone, PartialEq, Eq)]
pub enum Content {
    Text(String),
    Image(Image),
    Video(Video),
    /// A block under a tag that the schema does not name. It occurs in
    /// replies only, and a reply that holds one is refused.
    Unknown,
}

#[derive(Debug, Clone, PartialEq, Eq)]
pub struct Image {
    pub format: String,
    pub source: ImageSource,
}

#[derive(Debug, Clone, PartialEq, Eq)]
pub struct ImageSource {
    /// Base64 text.
    pub bytes: String,
}

#[derive(Debug, Clone, PartialEq, Eq)]
pub struct Video {
    pub format: String,
    pub source: VideoSource,
}

#[derive(Debug, Clone, PartialEq, Eq)]
pub enum VideoSource {
    S3Location(S3Location),
    /// Base64 text.
    Bytes(String),
}

#[derive(Debug, Clone, PartialEq, Eq)]
pub struct S3Location {
    pub uri: String,
}

/// A sampling knob between 0 and 1, counted in thousandths.
#[derive(Debug, Clone, Copy, PartialEq, Eq)]
pub struct Thousandths(pub u16);

/// The optional knobs of inference. Each one that is unset is left out of
/// the wire form.
#[derive(Debug, Clone, PartialEq, Eq)]
pub struct InferenceConfig {
    /// More than 0, at most 5000.
    pub max_new_tokens: Option<u16>,
    /// More than 0, at most 1.
    pub temperature: Option<Thousandths>,
    /// More than 0, at most 1.
    pub top_p: Option<Thousandths>,
    pub top_k: Option<u32>,
    pub stop_sequences: Vec<String>,
}

impl Default for InferenceConfig {
    fn default() -> (config: Self)
        ensures
            config.unset(),
    {
        InferenceConfig {
            max_new_tokens: None,
            temperature: None,
            top_p: None,
            top_k: None,
            stop_sequences: Vec::new(),
        }
    }
}

impl InferenceConfig {
    /// No knob is set and there is no stop sequence.
    pub open spec fn unset(&self) -> bool {
        &&& self.max_new_tokens is None
        &&& self.temperature is None
        &&& self.top_p is None
        &&& self.top_k is None
        &&& self.stop_sequences@.len() == 0
    }

    /// Every knob that is set lies in its documented range.
    pub open spec fn in_range(&self) -> bool {
        &&& self.max_new_tokens matches Some(n) ==> 0 < n <= 5000
        &&& self.temperature matches Some(t) ==> 0 < t.0 <= 1000
        &&& self.top_p matches Some(p) ==> 0 < p.0 <= 1000
    }

    /// Whether the whole object is to be left out of the wire form.
    pub fn is_empty(&self) -> (empty: bool)
        ensures
            empty == self.unset(),
    {
        self.max_new_tokens.is_none() && self.temperature.is_none() && self.top_p.is_none()
            && self.top_k.is_none() && self.stop_sequences.len() == 0
    }

    /// Whether every knob that is set lies in its documented range.
    pub fn is_valid(&self) -> (valid: bool)
        ensures
            valid == self.in_range(),
    {
        let tokens = match self.max_new_tokens {
            Some(n) => 0 < n && n <= 5000,
            None => true,
        };
        let temperature = match self.temperature {
            Some(t) => 0 < t.0 && t.0 <= 1000,
            None => true,
        };
        let top_p = match self.top_p {
            Some(p) => 0 < p.0 && p.0 <= 1000,
            None => true,
        };
        tokens && temperature && top_p
    }
}

#[derive(Debug, Clone, PartialEq, Eq)]
pub struct Response {
    pub output: Output,
    pub stop_reason: String,
    pub usage: Usage,
}

#[derive(Debug, Clone, PartialEq, Eq)]
pub struct Output {
    pub message: Message,
}

#[derive(Debug, Clone, Copy, PartialEq, Eq)]
pub struct Usage {
    pub input_tokens: u32,
    pub output_tokens: u32,
    pub total_tokens: u32,
}

impl Content {
    /// The block as the decoder sees it.
    pub open spec fn block(&self) -> Block {
        match self {
            Content::Text(t) => Block::Text(t@),
            Content::Image(_) => Block::Other(Modality::Image),
            Content::Video(_) => Block::Other(Modality::Video),
            Content::Unknown => Block::Other(Modality::Unknown),
        }
    }
}

impl Content {
    /// The text of a text block, or the kind of any other.
    pub fn as_text(&self) -> (text: Result<&String, Modality>)
        ensures
            match text {
                Ok(t) => self.block() == Block::Text(t@),
                Err(kind) => self.block() == Block::Other(kind),
            },
    {
        match self {
            Content::Text(t) => Ok(t),
            Content::Image(_) => Err(Modality::Image),
            Content::Video(_) => Err(Modality::Video),
            Content::Unknown => Err(Modality::Unknown),
        }
    }
}

impl Message {
    /// The content as the decoder sees it, block by block.
    pub open spec fn blocks(&self) -> Seq<Block> {
        Seq::new(self.content@.len(), |i: int| self.content@[i].block())
    }

    /// What the message decodes to: nothing but a protocol violation
    /// unless the assistant speaks, else the text of its content.
    pub open spec fn decoded(&self) -> Result<Seq<char>, DecodeError> {
        if self.role != Role::Assistant {
            Err(DecodeError::ProtocolViolation)
        } else {
            display_text(self.blocks())
        }
    }

    /// Decodes a reply's message into the text to display. Any role but
    /// the assistant's is refused, whatever the content.
    pub fn display_text(&self) -> (outcome: Result<String, DecodeError>)
        ensures
            match outcome {
                Ok(text) => self.decoded() == Ok::<Seq<char>, DecodeError>(text@),
                Err(e) => self.decoded() == Err::<Seq<char>, DecodeError>(e),
            },
    {
        match self.role {
            Role::User => {
                return Err(DecodeError::ProtocolViolation);
            },
            Role::Assistant => {},
        }
        if self.content.len() == 0 {
            return Ok(String::new());
        }
        let text = match self.content[0].as_text() {
            Ok(t) => t.clone(),
            Err(kind) => {
                return Err(DecodeError::UnsupportedOutputModality(kind));
            },
        };
        if self.content.len() == 1 {
            return Ok(text);
        }
        match self.content[1].as_text() {
            Ok(_) => Err(DecodeError::AmbiguousTextContent),
            Err(kind) => Err(DecodeError::UnsupportedOutputModality(kind)),
        }
    }
}

/// Only the assistant replies: a message in any other role decodes to a
/// protocol violation, whatever it holds.
pub proof fn lemma_only_the_assistant_replies(message: Message)
    requires
        message.role != Role::Assistant,
    ensures
        message.decoded() == Err::<Seq<char>, DecodeError>(DecodeError::ProtocolViolation),
{
}

} // verus!
