//! The names that most callers need, in one place.

pub use crate::agent::AgentId;
pub use crate::builder::MessageBuilder;
pub use crate::correlation::CorrelationTracker;
pub use crate::error::MessagingError;
pub use crate::mailbox::Mailbox;
pub use crate::message::{Message, MessageId};
pub use crate::performative::Performative;
pub use crate::protocols::request_reply::RequestReply;
pub use crate::router::Router;
