//! The routing registry: which agent is reached through which endpoint.

use vstd::prelude::*;
use std::collections::HashMap;
use tokio::sync::mpsc::{UnboundedReceiver, UnboundedSender};
use crate::agent::AgentId;
use crate::bindings::{channel_closed_reason, channel_send, clone_endpoint, open_channel};
use crate::error::MessagingError;
use crate::message::Message;

verus! {

/// A registry as a mathematical map: from the value of an agent's identity to
/// the endpoint that fills the agent's mailbox.
pub type Registry = Map<u128, UnboundedSender<Message>>;

/// Whether a message for `receiver` has nowhere to go.
pub open spec fn unroutable(registry: Registry, receiver: u128) -> bool {
    !registry.contains_key(receiver)
}

/// How one attempt to register `agent` relates the registry before it to the
/// registry after it.
///
/// An agent that is registered already is turned away and the registry stays
/// as it was. Otherwise the agent is entered, with an endpoint of its own,
/// and every other entry stays as it was.
pub open spec fn registration(
    before: Registry,
    agent: u128,
    after: Registry,
    accepted: bool,
) -> bool {
    if before.contains_key(agent) {
        !accepted && after == before
    } else {
        &&& accepted
        &&& after.dom() == before.dom().insert(agent)
        &&& forall|other: u128| #[trigger]
            before.contains_key(other) ==> after[other] == before[other]
    }
}

/// What the caller of a delivery is told, given what the channel said.
pub open spec fn delivery_report(outcome: Result<(), String>) -> Result<(), MessagingError> {
    match outcome {
        Ok(()) => Ok(()),
        Err(reason) => Err(MessagingError::SendFailed(reason)),
    }
}

/// Whether `report` is something that a delivery into an endpoint can come
/// to: success, or the failure of a closed mailbox.
pub open spec fn is_delivery_report(report: Result<(), MessagingError>) -> bool {
    match report {
        Ok(()) => true,
        Err(MessagingError::SendFailed(reason)) => reason@ == channel_closed_reason(),
        Err(_) => false,
    }
}

/// Turns what the channel said about a delivery into what the caller is told.
pub fn report_delivery(outcome: Result<(), String>) -> (report: Result<(), MessagingError>)
    ensures
        report == delivery_report(outcome),
{
    match outcome {
        Ok(()) => Ok(()),
        Err(reason) => Err(MessagingError::SendFailed(reason)),
    }
}

/// Hands `message` to `endpoint`.
///
/// The channel decides whether the mailbox still takes it; a refusal comes
/// back as `SendFailed` with the channel's reason.
pub fn deliver(endpoint: &UnboundedSender<Message>, message: Message) -> (report: Result<
    (),
    MessagingError,
>)
    ensures
        is_delivery_report(report),
{
    report_delivery(channel_send(endpoint, message))
}

/// Maps each registered agent to the endpoint of its mailbox, and is the one
/// way in for delivery.
///
/// Reading operations take the router shared and writing operations take it
/// exclusively, so any number of sends and queries may run side by side
/// while a registration or removal runs alone.
#[derive(Debug)]
pub struct Router {
    senders: HashMap<u128, UnboundedSender<Message>>,
}

impl View for Router {
    type V = Registry;

    closed spec fn view(&self) -> Registry {
        self.senders@
    }
}

impl Router {
    /// A router with no agent registered.
    pub fn new() -> (router: Router)
        ensures
            router@ == Registry::empty(),
    {
        Router { senders: HashMap::new() }
    }

    /// Registers `agent_id` and hands back the receiving half of its new
    /// mailbox, unless the agent is registered already: then the call fails
    /// with `RegistrationConflict` and changes nothing.
    pub fn register(&mut self, agent_id: AgentId) -> (inbound: Result<
        UnboundedReceiver<Message>,
        MessagingError,
    >)
        ensures
            registration(old(self)@, agent_id@, final(self)@, inbound is Ok),
            inbound matches Err(error) ==> error == MessagingError::RegistrationConflict,
    {
        let key = agent_id.as_u128();
        if self.senders.contains_key(&key) {
            return Err(MessagingError::RegistrationConflict);
        }
        let (endpoint, inbound) = open_channel();
        self.senders.insert(key, endpoint);
        Ok(inbound)
    }

    /// Removes `agent_id` from the registry. Removing an agent that is not
    /// registered does nothing; the call never fails.
    pub fn unregister(&mut self, agent_id: &AgentId) -> (done: Result<(), MessagingError>)
        ensures
            done is Ok,
            final(self)@ == old(self)@.remove(agent_id@),
    {
        let key = agent_id.as_u128();
        self.senders.remove(&key);
        Ok(())
    }

    /// The endpoint through which `agent_id` is reached, or `AgentNotFound`
    /// if the agent is not registered.
    pub fn resolve(&self, agent_id: &AgentId) -> (endpoint: Result<
        UnboundedSender<Message>,
        MessagingError,
    >)
        ensures
            match endpoint {
                Ok(found) => self@.contains_key(agent_id@) && found == self@[agent_id@],
                Err(error) => unroutable(self@, agent_id@) && error
                    == MessagingError::AgentNotFound,
            },
    {
        let key = agent_id.as_u128();
        match self.senders.get(&key) {
            Some(endpoint) => Ok(clone_endpoint(endpoint)),
            None => Err(MessagingError::AgentNotFound),
        }
    }

    /// Delivers `message` into the mailbox of its receiver.
    ///
    /// Fails with `AgentNotFound` exactly when the receiver is not
    /// registered; nothing is handed to any endpoint then. Otherwise the
    /// message goes to the receiver's endpoint, and the call reports what
    /// the channel said: success, or `SendFailed` if the mailbox was closed.
    pub fn send(&self, message: Message) -> (sent: Result<(), MessagingError>)
        ensures
            unroutable(self@, message@.receiver@) ==> sent == Err::<(), MessagingError>(
                MessagingError::AgentNotFound,
            ),
            !unroutable(self@, message@.receiver@) ==> is_delivery_report(sent),
    {
        let key = message.receiver().as_u128();
        match self.senders.get(&key) {
            Some(endpoint) => deliver(endpoint, message),
            None => Err(MessagingError::AgentNotFound),
        }
    }

    /// Whether `agent_id` is registered.
    pub fn is_registered(&self, agent_id: &AgentId) -> (registered: bool)
        ensures
            registered == self@.contains_key(agent_id@),
    {
        let key = agent_id.as_u128();
        self.senders.contains_key(&key)
    }
}

impl Default for Router {
    fn default() -> (router: Router)
        ensures
            router@ == Registry::empty(),
    {
        Router::new()
    }
}

/// A second registration of an agent, with no removal in between, is turned
/// away and leaves the registry as the first one left it.
pub proof fn lemma_second_registration_conflicts(
    before: Registry,
    between: Registry,
    after: Registry,
    agent: AgentId,
    first: bool,
    second: bool,
)
    requires
        registration(before, agent@, between, first),
        registration(between, agent@, after, second),
    ensures
        !second,
        after == between,
{
}

/// A new registry routes to nobody.
pub proof fn lemma_new_registry_routes_nothing(agent: AgentId)
    ensures
        unroutable(Registry::empty(), agent@),
{
}

/// What happens to other agents does not make an agent routable: if no
/// message can be routed to `agent`, none can after `other` has been
/// registered, turned away or removed.
pub proof fn lemma_others_leave_unroutable(
    before: Registry,
    after: Registry,
    agent: AgentId,
    other: AgentId,
    accepted: bool,
)
    requires
        other != agent,
        unroutable(before, agent@),
        registration(before, other@, after, accepted) || after == before.remove(other@),
    ensures
        unroutable(after, agent@),
{
    if other@ == agent@ {
        AgentId::lemma_view_injective(other, agent);
    }
}

/// No message can be routed to an agent once it has been removed.
pub proof fn lemma_unregistered_is_unroutable(before: Registry, agent: AgentId)
    ensures
        unroutable(before.remove(agent@), agent@),
{
}

} // verus!
