//! The ways in which messaging fails.

use vstd::prelude::*;

verus! {

/// A failure reported to the immediate caller.
#[derive(Debug, PartialEq, Eq)]
pub enum MessagingError {
    /// A message was addressed to an agent that is not registered.
    AgentNotFound,
    /// Delivery was attempted into a mailbox that had been closed; the text
    /// is the reason the channel gave.
    SendFailed(String),
    /// A message was built without the required field that the text names.
    ValidationError(String),
    /// A request saw no reply before its deadline.
    Timeout,
    /// An agent was registered while it was registered already.
    RegistrationConflict,
    /// A lock guarding shared state was poisoned.
    LockError,
    /// Any other failure, described by the text.
    Other(String),
}

impl Clone for MessagingError {
    fn clone(&self) -> (copy: MessagingError)
        ensures
            copy == *self,
    {
        match self {
            MessagingError::AgentNotFound => MessagingError::AgentNotFound,
            MessagingError::SendFailed(reason) => MessagingError::SendFailed(reason.clone()),
            MessagingError::ValidationError(field) => MessagingError::ValidationError(
                field.clone(),
            ),
            MessagingError::Timeout => MessagingError::Timeout,
            MessagingError::RegistrationConflict => MessagingError::RegistrationConflict,
            MessagingError::LockError => MessagingError::LockError,
            MessagingError::Other(reason) => MessagingError::Other(reason.clone()),
        }
    }
}

} // verus!
