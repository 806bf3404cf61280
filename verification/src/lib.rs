//! Message routing between agents: typed speech-act messages, per-agent
//! mailboxes, a routing registry and request/reply correlation.
//!
//! The library holds the rules of the exchange, each with a contract that
//! Verus proves:
//!
//! - [`message`] and [`builder`]: the immutable message envelope, and its
//!   construction with a named failure for each missing field;
//! - [`router`]: the registry from agent to mailbox endpoint, with rejected
//!   collisions and `AgentNotFound` for every unregistered receiver;
//! - [`mailbox`]: a mailbox that holds both halves of its channel;
//! - [`correlation`]: the tracker of outstanding requests, in which every
//!   request is resolved at most once;
//! - [`protocols::request_reply`]: the life of one request, from sending to
//!   one of its four ends.
//!
//! Every operation is a plain call that returns at once. The queues
//! themselves are unbounded channels, and the slot in which a request waits
//! for its reply is a one-shot channel; [`bindings`] lists what is assumed of
//! them. Sharing the router and the tracker between tasks, and waiting, are
//! left to the caller: operations that only read take `&self`, operations
//! that write take `&mut self`, so a reader-writer lock around the router and
//! a lock around the tracker give the intended concurrency.

pub mod agent;
pub mod bindings;
pub mod builder;
pub mod correlation;
pub mod error;
pub mod mailbox;
pub mod message;
pub mod performative;
pub mod prelude;
pub mod protocols;
pub mod router;

pub use agent::AgentId;
pub use builder::MessageBuilder;
pub use correlation::CorrelationTracker;
pub use error::MessagingError;
pub use mailbox::Mailbox;
pub use message::{Message, MessageId};
pub use performative::Performative;
pub use router::Router;
