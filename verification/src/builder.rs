//! Step-by-step construction of a message.

use vstd::prelude::*;
use vstd::string::*;
use crate::agent::AgentId;
use crate::bindings::is_random_uuid;
use crate::error::MessagingError;
use crate::message::{Message, MessageId};
use crate::performative::Performative;

verus! {

/// The fields that a builder has been given so far.
pub struct MessageBuilderView {
    pub sender: Option<AgentId>,
    pub receiver: Option<AgentId>,
    pub performative: Option<Performative>,
    pub content: Option<Seq<char>>,
    pub conversation_id: Option<Seq<char>>,
    pub in_reply_to: Option<MessageId>,
}

impl MessageBuilderView {
    /// The name of the first required field that is still missing, in the
    /// order sender, receiver, performative, content; `None` once all four
    /// are set.
    pub open spec fn missing_field(self) -> Option<Seq<char>> {
        if self.sender is None {
            Some("sender"@)
        } else if self.receiver is None {
            Some("receiver"@)
        } else if self.performative is None {
            Some("performative"@)
        } else if self.content is None {
            Some("content"@)
        } else {
            None
        }
    }
}

/// Collects the fields of a message and checks that the required ones are
/// present before the message is made.
#[derive(Debug)]
pub struct MessageBuilder {
    sender: Option<AgentId>,
    receiver: Option<AgentId>,
    performative: Option<Performative>,
    content: Option<String>,
    conversation_id: Option<String>,
    in_reply_to: Option<MessageId>,
}

impl View for MessageBuilder {
    type V = MessageBuilderView;

    closed spec fn view(&self) -> MessageBuilderView {
        MessageBuilderView {
            sender: self.sender,
            receiver: self.receiver,
            performative: self.performative,
            content: match self.content {
                Some(text) => Some(text@),
                None => None,
            },
            conversation_id: match self.conversation_id {
                Some(text) => Some(text@),
                None => None,
            },
            in_reply_to: self.in_reply_to,
        }
    }
}

impl MessageBuilder {
    /// A builder with no field set.
    pub fn new() -> (builder: MessageBuilder)
        ensures
            builder@ == (MessageBuilderView {
                sender: None,
                receiver: None,
                performative: None,
                content: None,
                conversation_id: None,
                in_reply_to: None,
            }),
    {
        MessageBuilder {
            sender: None,
            receiver: None,
            performative: None,
            content: None,
            conversation_id: None,
            in_reply_to: None,
        }
    }

    /// Sets the sender.
    pub fn sender(self, sender: AgentId) -> (builder: MessageBuilder)
        ensures
            builder@ == (MessageBuilderView { sender: Some(sender), ..self@ }),
    {
        let mut builder = self;
        builder.sender = Some(sender);
        builder
    }

    /// Sets the receiver.
    pub fn receiver(self, receiver: AgentId) -> (builder: MessageBuilder)
        ensures
            builder@ == (MessageBuilderView { receiver: Some(receiver), ..self@ }),
    {
        let mut builder = self;
        builder.receiver = Some(receiver);
        builder
    }

    /// Sets the performative.
    pub fn performative(self, performative: Performative) -> (builder: MessageBuilder)
        ensures
            builder@ == (MessageBuilderView { performative: Some(performative), ..self@ }),
    {
        let mut builder = self;
        builder.performative = Some(performative);
        builder
    }

    /// Sets the text payload.
    pub fn content(self, content: &str) -> (builder: MessageBuilder)
        ensures
            builder@ == (MessageBuilderView { content: Some(content@), ..self@ }),
    {
        let mut builder = self;
        builder.content = Some(String::from_str(content));
        builder
    }

    /// Sets the conversation that the message belongs to.
    pub fn conversation_id(self, id: &str) -> (builder: MessageBuilder)
        ensures
            builder@ == (MessageBuilderView { conversation_id: Some(id@), ..self@ }),
    {
        let mut builder = self;
        builder.conversation_id = Some(String::from_str(id));
        builder
    }

    /// Sets the message that this one answers.
    pub fn in_reply_to(self, id: MessageId) -> (builder: MessageBuilder)
        ensures
            builder@ == (MessageBuilderView { in_reply_to: Some(id), ..self@ }),
    {
        let mut builder = self;
        builder.in_reply_to = Some(id);
        builder
    }

    /// Makes the message, with a fresh identifier, if the sender, receiver,
    /// performative and content are all set; otherwise names the first of
    /// them that is missing and makes nothing.
    pub fn build(self) -> (built: Result<Message, MessagingError>)
        ensures
            match built {
                Ok(message) => {
                    &&& self@.missing_field() is None
                    &&& self@.sender == Some(message@.sender)
                    &&& self@.receiver == Some(message@.receiver)
                    &&& self@.performative == Some(message@.performative)
                    &&& self@.content == Some(message@.content)
                    &&& self@.conversation_id == message@.conversation_id
                    &&& self@.in_reply_to == message@.in_reply_to
                    &&& is_random_uuid(message@.id@)
                },
                Err(error) => {
                    &&& error matches MessagingError::ValidationError(field)
                    &&& self@.missing_field() == Some(field@)
                },
            },
            self@.sender is None ==> (built matches Err(MessagingError::ValidationError(field))
                && field@ == "sender"@),
    {
        let MessageBuilder { sender, receiver, performative, content, conversation_id, in_reply_to } =
            self;
        let sender = match sender {
            Some(sender) => sender,
            None => {
                return Err(MessagingError::ValidationError(String::from_str("sender")));
            },
        };
        let receiver = match receiver {
            Some(receiver) => receiver,
            None => {
                return Err(MessagingError::ValidationError(String::from_str("receiver")));
            },
        };
        let performative = match performative {
            Some(performative) => performative,
            None => {
                return Err(MessagingError::ValidationError(String::from_str("performative")));
            },
        };
        let content = match content {
            Some(content) => content,
            None => {
                return Err(MessagingError::ValidationError(String::from_str("content")));
            },
        };
        let mut message = Message::new(sender, receiver, performative, content.as_str());
        if let Some(id) = conversation_id {
            message = message.with_conversation_id(id);
        }
        if let Some(id) = in_reply_to {
            message = message.with_reply_to(id);
        }
        Ok(message)
    }
}

impl Default for MessageBuilder {
    fn default() -> (builder: MessageBuilder)
        ensures
            builder@ == (MessageBuilderView {
                sender: None,
                receiver: None,
                performative: None,
                content: None,
                conversation_id: None,
                in_reply_to: None,
            }),
    {
        MessageBuilder::new()
    }
}

} // verus!
