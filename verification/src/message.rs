//! The message envelope.

use vstd::prelude::*;
use vstd::string::*;
use std::time::SystemTime;
use crate::agent::AgentId;
use crate::bindings::{current_time, is_random_uuid, random_uuid_bits};
use crate::performative::Performative;

verus! {

/// Identifies one message, and correlates the replies to it.
///
/// The identifier is a 128-bit value, which is its view.
#[derive(Debug, Clone, Copy, PartialEq, Eq, Hash, Structural)]
pub struct MessageId {
    value: u128,
}

impl View for MessageId {
    type V = u128;

    closed spec fn view(&self) -> u128 {
        self.value
    }
}

impl MessageId {
    /// A fresh identifier, drawn at random.
    pub fn new() -> (id: MessageId)
        ensures
            is_random_uuid(id@),
    {
        MessageId { value: random_uuid_bits() }
    }

    /// The identifier with the given value.
    pub fn from_u128(value: u128) -> (id: MessageId)
        ensures
            id@ == value,
    {
        MessageId { value }
    }

    /// The value of the identifier.
    pub fn as_u128(&self) -> (value: u128)
        ensures
            value == self@,
    {
        self.value
    }

    /// Identifiers with the same value are the same identifier.
    pub proof fn lemma_view_injective(a: MessageId, b: MessageId)
        requires
            a@ == b@,
        ensures
            a == b,
    {
    }
}

impl Default for MessageId {
    fn default() -> (id: MessageId)
        ensures
            is_random_uuid(id@),
    {
        MessageId::new()
    }
}

/// What a message says, as a mathematical record.
pub struct MessageView {
    pub id: MessageId,
    pub sender: AgentId,
    pub receiver: AgentId,
    pub performative: Performative,
    pub content: Seq<char>,
    pub conversation_id: Option<Seq<char>>,
    pub in_reply_to: Option<MessageId>,
    pub timestamp: SystemTime,
}

/// The characters of an optional piece of text.
pub open spec fn text_view(text: Option<&str>) -> Option<Seq<char>> {
    match text {
        Some(s) => Some(s@),
        None => None,
    }
}

/// One speech act from one agent to another.
///
/// A message is immutable once made: the methods that set the conversation
/// or the reply reference consume it and hand back a message that differs in
/// that field alone.
#[derive(Debug)]
pub struct Message {
    id: MessageId,
    sender: AgentId,
    receiver: AgentId,
    performative: Performative,
    content: String,
    conversation_id: Option<String>,
    in_reply_to: Option<MessageId>,
    timestamp: SystemTime,
}

impl View for Message {
    type V = MessageView;

    closed spec fn view(&self) -> MessageView {
        MessageView {
            id: self.id,
            sender: self.sender,
            receiver: self.receiver,
            performative: self.performative,
            content: self.content@,
            conversation_id: match self.conversation_id {
                Some(text) => Some(text@),
                None => None,
            },
            in_reply_to: self.in_reply_to,
            timestamp: self.timestamp,
        }
    }
}

impl Message {
    /// Makes a message with a fresh identifier, stamped with the current
    /// time, that belongs to no conversation and answers nothing.
    pub fn new(
        sender: AgentId,
        receiver: AgentId,
        performative: Performative,
        content: &str,
    ) -> (message: Message)
        ensures
            message@.sender == sender,
            message@.receiver == receiver,
            message@.performative == performative,
            message@.content == content@,
            message@.conversation_id is None,
            message@.in_reply_to is None,
            is_random_uuid(message@.id@),
    {
        Message {
            id: MessageId::new(),
            sender,
            receiver,
            performative,
            content: String::from_str(content),
            conversation_id: None,
            in_reply_to: None,
            timestamp: current_time(),
        }
    }

    /// The message with exactly the given fields.
    pub fn from_parts(
        id: MessageId,
        sender: AgentId,
        receiver: AgentId,
        performative: Performative,
        content: String,
        conversation_id: Option<String>,
        in_reply_to: Option<MessageId>,
        timestamp: SystemTime,
    ) -> (message: Message)
        ensures
            message@ == (MessageView {
                id,
                sender,
                receiver,
                performative,
                content: content@,
                conversation_id: match conversation_id {
                    Some(text) => Some(text@),
                    None => None,
                },
                in_reply_to,
                timestamp,
            }),
    {
        Message {
            id,
            sender,
            receiver,
            performative,
            content,
            conversation_id,
            in_reply_to,
            timestamp,
        }
    }

    /// The message's own identifier.
    pub fn id(&self) -> (id: MessageId)
        ensures
            id == self@.id,
    {
        self.id
    }

    /// The agent that sent the message.
    pub fn sender(&self) -> (sender: AgentId)
        ensures
            sender == self@.sender,
    {
        self.sender
    }

    /// The agent that the message is addressed to.
    pub fn receiver(&self) -> (receiver: AgentId)
        ensures
            receiver == self@.receiver,
    {
        self.receiver
    }

    /// The speech act that the message performs.
    pub fn performative(&self) -> (performative: Performative)
        ensures
            performative == self@.performative,
    {
        self.performative
    }

    /// The text payload.
    pub fn content(&self) -> (content: &str)
        ensures
            content@ == self@.content,
    {
        self.content.as_str()
    }

    /// The conversation that the message belongs to, if any.
    pub fn conversation_id(&self) -> (conversation: Option<&str>)
        ensures
            text_view(conversation) == self@.conversation_id,
    {
        match &self.conversation_id {
            Some(text) => Some(text.as_str()),
            None => None,
        }
    }

    /// The identifier of the message that this one answers, if any.
    pub fn in_reply_to(&self) -> (reference: Option<MessageId>)
        ensures
            reference == self@.in_reply_to,
    {
        self.in_reply_to
    }

    /// When the message was made.
    pub fn timestamp(&self) -> (timestamp: SystemTime)
        ensures
            timestamp == self@.timestamp,
    {
        self.timestamp
    }

    /// The same message, placed in the conversation `id`.
    pub fn with_conversation_id(self, id: String) -> (message: Message)
        ensures
            message@ == (MessageView { conversation_id: Some(id@), ..self@ }),
    {
        let mut message = self;
        message.conversation_id = Some(id);
        message
    }

    /// The same message, marked as the answer to the message `id`.
    pub fn with_reply_to(self, id: MessageId) -> (message: Message)
        ensures
            message@ == (MessageView { in_reply_to: Some(id), ..self@ }),
    {
        let mut message = self;
        message.in_reply_to = Some(id);
        message
    }
}

impl Clone for Message {
    fn clone(&self) -> (copy: Message)
        ensures
            copy@ == self@,
    {
        Message {
            id: self.id,
            sender: self.sender,
            receiver: self.receiver,
            performative: self.performative,
            content: self.content.clone(),
            conversation_id: match &self.conversation_id {
                Some(text) => Some(text.clone()),
                None => None,
            },
            in_reply_to: self.in_reply_to,
            timestamp: self.timestamp,
        }
    }
}

} // verus!
