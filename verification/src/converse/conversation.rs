//! The history of one interactive session, and the two halves of a turn:
//! what is sent, and what comes of the reply.

use crate::converse::modalities::{carries, refused, rejects, ContentBlock};
use crate::decode::{display_text, Block, DecodeError};
use crate::file::{Attachment, EncodeError};
use vstd::prelude::*;

verus! {

#[derive(Debug, Clone, Copy, PartialEq, Eq, Structural)]
pub enum ConversationRole {
    User,
    Assistant,
}

#[derive(Debug, Clone, PartialEq, Eq)]
pub enum SystemContentBlock {
    Text(String),
}

#[derive(Debug, Clone, PartialEq, Eq)]
pub struct Message {
    pub role: ConversationRole,
    pub content: Vec<ContentBlock>,
}

/// One session. The history only grows, by one question and its answer at
/// a time. Between sending a question and the outcome of the call, the
/// question stands last in `messages`, or last but for a prefill that
/// starts the answer off; together with what came before they are what is
/// sent.
#[derive(Debug, Clone, PartialEq, Eq)]
pub struct ConversationState {
    pub model: String,
    pub verbose: bool,
    pub system_prompt: Option<Vec<SystemContentBlock>>,
    pub messages: Vec<Message>,
    /// Whether the last message is the prefill of the turn in flight.
    pub prefilled: bool,
}

/// The role that speaks at place `i` of a history.
pub open spec fn role_at(i: int) -> ConversationRole {
    if i % 2 == 0 {
        ConversationRole::User
    } else {
        ConversationRole::Assistant
    }
}

/// Whether `content` is the user's turn for this prompt and these
/// attachments: the prompt as text first, then one block for each
/// attachment, in the order given.
pub open spec fn is_user_content(
    content: Seq<ContentBlock>,
    prompt: Seq<char>,
    attachments: Seq<Attachment>,
) -> bool {
    &&& content.len() == attachments.len() + 1
    &&& content[0] matches ContentBlock::Text(t)
    &&& t@ == prompt
    &&& forall|i: int|
        0 <= i < attachments.len() ==> carries(&attachments[i], #[trigger] &content[i + 1])
}

/// Whether every attachment can be carried.
pub open spec fn none_refused(attachments: Seq<Attachment>) -> bool {
    forall|i: int| 0 <= i < attachments.len() ==> !refused(#[trigger] &attachments[i])
}

/// Whether `error` is that of the first attachment that is refused.
pub open spec fn is_first_rejection(attachments: Seq<Attachment>, error: &EncodeError) -> bool {
    exists|i: int|
        {
            &&& 0 <= i < attachments.len()
            &&& forall|j: int| 0 <= j < i ==> !refused(#[trigger] &attachments[j])
            &&& rejects(#[trigger] &attachments[i], error)
        }
}

impl Message {
    /// The content as the decoder sees it, block by block.
    pub open spec fn blocks(&self) -> Seq<Block> {
        Seq::new(self.content@.len(), |i: int| self.content@[i].block())
    }

    /// What the message decodes to as a reply: nothing but a protocol
    /// violation unless the assistant speaks, else the text of its
    /// content.
    pub open spec fn decoded(&self) -> Result<Seq<char>, DecodeError> {
        if self.role != ConversationRole::Assistant {
            Err(DecodeError::ProtocolViolation)
        } else {
            display_text(self.blocks())
        }
    }

    /// Builds the user's message of a turn. Nothing is built unless every
    /// attachment can be carried: the first that cannot decides the error.
    pub fn user(prompt: String, attachments: &Vec<Attachment>) -> (outcome: Result<
        Message,
        EncodeError,
    >)
        ensures
            match outcome {
                Ok(message) => {
                    &&& message.role == ConversationRole::User
                    &&& is_user_content(message.content@, prompt@, attachments@)
                },
                Err(error) => is_first_rejection(attachments@, &error),
            },
            outcome is Ok <==> none_refused(attachments@),
    {
        let mut content: Vec<ContentBlock> = Vec::new();
        content.push(ContentBlock::Text(prompt));
        let mut i: usize = 0;
        while i < attachments.len()
            invariant
                i <= attachments@.len(),
                content@.len() == i + 1,
                content@[0] matches ContentBlock::Text(t) && t@ == prompt@,
                forall|j: int| 0 <= j < i ==> !refused(#[trigger] &attachments@[j]),
                forall|j: int| 0 <= j < i ==> carries(&attachments@[j], #[trigger] &content@[j + 1]),
            decreases attachments@.len() - i,
        {
            match ContentBlock::encode(&attachments[i]) {
                Ok(block) => {
                    content.push(block);
                },
                Err(error) => {
                    return Err(error);
                },
            }
            i += 1;
        }
        Ok(Message { role: ConversationRole::User, content })
    }

    /// Decodes a reply into the text to display. Any role but the
    /// assistant's is refused, whatever the content.
    pub fn display_text(&self) -> (outcome: Result<String, DecodeError>)
        ensures
            match outcome {
                Ok(text) => self.decoded() == Ok::<Seq<char>, DecodeError>(text@),
                Err(e) => self.decoded() == Err::<Seq<char>, DecodeError>(e),
            },
    {
        match self.role {
            ConversationRole::User => {
                return Err(DecodeError::ProtocolViolation);
            },
            ConversationRole::Assistant => {},
        }
        if self.content.len() == 0 {
            return Ok(String::new());
        }
        let text = match self.content[0].as_text() {
            Ok(t) => t.clone(),
            Err(kind) => {
                return Err(DecodeError::UnsupportedOutputModality(kind));
            },
        };
        if self.content.len() == 1 {
            return Ok(text);
        }
        match self.content[1].as_text() {
            Ok(_) => Err(DecodeError::AmbiguousTextContent),
            Err(kind) => Err(DecodeError::UnsupportedOutputModality(kind)),
        }
    }
}

/// Whether the content of `message` is not empty and begins with text.
pub open spec fn begins_with_text(message: &Message) -> bool {
    message.content@.len() > 0 && message.content@[0] is Text
}

/// Whether `message` is the assistant's, with `prefill` as its one text.
pub open spec fn is_prefill(message: &Message, prefill: Seq<char>) -> bool {
    &&& message.role == ConversationRole::Assistant
    &&& message.content@.len() == 1
    &&& message.content@[0] matches ContentBlock::Text(t)
    &&& t@ == prefill
}

impl ConversationState {
    /// The history is sound: the user speaks first and the roles take
    /// turns; what the user says begins with text; a prefill, where there
    /// is one, follows a question.
    pub open spec fn wf(&self) -> bool {
        &&& forall|i: int|
            0 <= i < self.messages@.len() ==> (#[trigger] self.messages@[i]).role == role_at(i)
        &&& forall|i: int|
            0 <= i < self.messages@.len() && i % 2 == 0 ==> begins_with_text(
                #[trigger] &self.messages@[i],
            )
        &&& self.prefilled ==> self.messages@.len() >= 2 && self.messages@.len() % 2 == 0
    }

    /// A question has been sent and its outcome is not yet known.
    pub open spec fn awaiting_reply(&self) -> bool {
        self.messages@.len() % 2 == 1 || self.prefilled
    }

    /// How many messages belong to turns that are over.
    pub open spec fn settled(&self) -> int {
        if self.prefilled {
            self.messages@.len() - 2
        } else if self.messages@.len() % 2 == 1 {
            self.messages@.len() - 1
        } else {
            self.messages@.len() as int
        }
    }

    /// Whether `other` is this session but for its history.
    pub open spec fn same_session(&self, other: &ConversationState) -> bool {
        &&& self.model == other.model
        &&& self.verbose == other.verbose
        &&& self.system_prompt == other.system_prompt
    }

    /// Opens a session with an empty history.
    pub fn new(model: String, system: Option<String>, verbose: bool) -> (state: Self)
        ensures
            state.wf(),
            !state.awaiting_reply(),
            state.messages@.len() == 0,
            state.model@ == model@,
            state.verbose == verbose,
            match (system, state.system_prompt) {
                (Some(text), Some(blocks)) => {
                    &&& blocks@.len() == 1
                    &&& blocks@[0] matches SystemContentBlock::Text(t)
                    &&& t@ == text@
                },
                (None, None) => true,
                _ => false,
            },
    {
        let system_prompt = match system {
            Some(text) => {
                let mut blocks: Vec<SystemContentBlock> = Vec::new();
                blocks.push(SystemContentBlock::Text(text));
                Some(blocks)
            },
            None => None,
        };
        ConversationState {
            model,
            verbose,
            system_prompt,
            messages: Vec::new(),
            prefilled: false,
        }
    }

    /// Whether the history is sound. The fields are open to the caller, so
    /// a session that was put together by hand is tested with this before
    /// a turn.
    pub fn is_wf(&self) -> (ok: bool)
        ensures
            ok == self.wf(),
    {
        let n = self.messages.len();
        if self.prefilled && (n < 2 || n % 2 != 0) {
            return false;
        }
        let mut i: usize = 0;
        while i < n
            invariant
                i <= n,
                n == self.messages@.len(),
                forall|j: int| 0 <= j < i ==> (#[trigger] self.messages@[j]).role == role_at(j),
                forall|j: int|
                    0 <= j < i && j % 2 == 0 ==> begins_with_text(#[trigger] &self.messages@[j]),
            decreases n - i,
        {
            let message = &self.messages[i];
            let even = i % 2 == 0;
            let in_turn = match message.role {
                ConversationRole::User => even,
                ConversationRole::Assistant => !even,
            };
            if !in_turn {
                assert(self.messages@[i as int].role != role_at(i as int));
                return false;
            }
            if even {
                let begins = message.content.len() > 0 && message.content[0].as_text().is_ok();
                if !begins {
                    assert(!begins_with_text(&self.messages@[i as int]));
                    return false;
                }
            }
            i += 1;
        }
        true
    }

    /// Whether a question has been sent and its outcome is not yet known.
    pub fn is_awaiting_reply(&self) -> (awaiting: bool)
        ensures
            awaiting == self.awaiting_reply(),
    {
        self.messages.len() % 2 == 1 || self.prefilled
    }

    /// Starts a turn: builds the user's message and puts it last in the
    /// history, followed by the prefill where one is given; `messages` is
    /// then what is to be sent. Where an attachment is refused the turn is
    /// over and the session is as it was.
    pub fn say(
        &mut self,
        prompt: String,
        attachments: &Vec<Attachment>,
        assistant_prefill: Option<String>,
    ) -> (outcome: Result<(), EncodeError>)
        requires
            old(self).wf(),
            !old(self).awaiting_reply(),
        ensures
            final(self).wf(),
            final(self).same_session(old(self)),
            final(self).messages@.len() > 0 ==> final(self).messages@[0].role
                == ConversationRole::User,
            outcome is Ok <==> none_refused(attachments@),
            match outcome {
                Ok(()) => {
                    let n = old(self).messages@.len() as int;
                    &&& final(self).awaiting_reply()
                    &&& final(self).settled() == n
                    &&& final(self).messages@.subrange(0, n) == old(self).messages@
                    &&& final(self).messages@[n].role == ConversationRole::User
                    &&& is_user_content(final(self).messages@[n].content@, prompt@, attachments@)
                    &&& match assistant_prefill {
                        Some(prefill) => {
                            &&& final(self).messages@.len() == n + 2
                            &&& is_prefill(&final(self).messages@[n + 1], prefill@)
                        },
                        None => final(self).messages@.len() == n + 1,
                    }
                },
                Err(error) => {
                    &&& *final(self) == *old(self)
                    &&& is_first_rejection(attachments@, &error)
                },
            },
    {
        match Message::user(prompt, attachments) {
            Ok(message) => {
                self.messages.push(message);
                if let Some(prefill) = assistant_prefill {
                    let mut content: Vec<ContentBlock> = Vec::new();
                    content.push(ContentBlock::Text(prefill));
                    self.messages.push(Message { role: ConversationRole::Assistant, content });
                    self.prefilled = true;
                }
                assert(self.messages@.subrange(0, old(self).messages@.len() as int)
                    =~= old(self).messages@);
                Ok(())
            },
            Err(error) => Err(error),
        }
    }

    /// Ends a turn with the reply that the call brought. A prefill has
    /// served and leaves the history. A reply that decodes is then put
    /// last and its text is returned. One that does not, or a call that
    /// brought no message (`reply` is `None`; `raw` is then kept for
    /// diagnosis), ends the turn as if it had not begun: the question
    /// leaves the history too.
    pub fn reply(&mut self, reply: Option<Message>, raw: String) -> (outcome: Result<
        String,
        DecodeError,
    >)
        requires
            old(self).wf(),
            old(self).awaiting_reply(),
        ensures
            final(self).wf(),
            !final(self).awaiting_reply(),
            final(self).same_session(old(self)),
            match outcome {
                Ok(text) => {
                    &&& reply matches Some(message)
                    &&& message.decoded() == Ok::<Seq<char>, DecodeError>(text@)
                    &&& final(self).messages@ == old(self).messages@.subrange(
                        0,
                        old(self).settled() + 1,
                    ).push(message)
                },
                Err(error) => {
                    &&& final(self).messages@ == old(self).messages@.subrange(
                        0,
                        old(self).settled(),
                    )
                    &&& match reply {
                        Some(message) => message.decoded() == Err::<Seq<char>, DecodeError>(
                            error,
                        ),
                        None => {
                            &&& error matches DecodeError::MalformedPayload(body)
                            &&& body@ == raw@
                        },
                    }
                },
            },
    {
        let settled = self.settled_len();
        self.prefilled = false;
        match reply {
            None => {
                self.messages.truncate(settled);
                Err(DecodeError::MalformedPayload(raw))
            },
            Some(message) => match message.display_text() {
                Ok(text) => {
                    self.messages.truncate(settled + 1);
                    self.messages.push(message);
                    Ok(text)
                },
                Err(error) => {
                    self.messages.truncate(settled);
                    Err(error)
                },
            },
        }
    }

    /// Ends a turn whose call failed: the question leaves the history,
    /// and with it the prefill.
    pub fn abort(&mut self)
        requires
            old(self).wf(),
            old(self).awaiting_reply(),
        ensures
            final(self).wf(),
            !final(self).awaiting_reply(),
            final(self).same_session(old(self)),
            final(self).messages@ == old(self).messages@.subrange(0, old(self).settled()),
    {
        let settled = self.settled_len();
        self.prefilled = false;
        self.messages.truncate(settled);
    }

    /// How many messages belong to turns that are over.
    pub fn settled_len(&self) -> (settled: usize)
        requires
            self.wf(),
        ensures
            settled == self.settled(),
    {
        let n = self.messages.len();
        if self.prefilled {
            n - 2
        } else if n % 2 == 1 {
            n - 1
        } else {
            n
        }
    }
}

/// Only the assistant replies: a message in any other role decodes to a
/// protocol violation, whatever it holds.
pub proof fn lemma_only_the_assistant_replies(message: Message)
    requires
        message.role != ConversationRole::Assistant,
    ensures
        message.decoded() == Err::<Seq<char>, DecodeError>(DecodeError::ProtocolViolation),
{
}

/// In a sound history the user speaks first, and a session at rest holds
/// whole turns only.
pub proof fn lemma_user_speaks_first(state: ConversationState)
    requires
        state.wf(),
    ensures
        state.messages@.len() > 0 ==> state.messages@[0].role == ConversationRole::User,
        state.messages@.len() > 0 ==> begins_with_text(&state.messages@[0]),
        !state.awaiting_reply() ==> state.messages@.len() % 2 == 0,
        forall|i: int|
            0 <= i < state.messages@.len() - 1 ==> (#[trigger] state.messages@[i]).role
                != state.messages@[i + 1].role,
{
}

} // verus!
