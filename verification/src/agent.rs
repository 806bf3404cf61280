//! The identity of an agent.

use vstd::prelude::*;
use crate::bindings::{is_random_uuid, random_uuid_bits};

verus! {

/// Names one endpoint of the message traffic.
///
/// An identity is a 128-bit value and nothing else: two identities are the
/// same agent exactly when their values agree. The value is the view.
#[derive(Debug, Clone, Copy, PartialEq, Eq, Hash, Structural)]
pub struct AgentId {
    value: u128,
}

impl View for AgentId {
    type V = u128;

    closed spec fn view(&self) -> u128 {
        self.value
    }
}

impl AgentId {
    /// A fresh identity, drawn at random.
    pub fn new() -> (id: AgentId)
        ensures
            is_random_uuid(id@),
    {
        AgentId { value: random_uuid_bits() }
    }

    /// The identity with the given value.
    pub fn from_u128(value: u128) -> (id: AgentId)
        ensures
            id@ == value,
    {
        AgentId { value }
    }

    /// The value of the identity.
    pub fn as_u128(&self) -> (value: u128)
        ensures
            value == self@,
    {
        self.value
    }

    /// Identities with the same value are the same identity.
    pub proof fn lemma_view_injective(a: AgentId, b: AgentId)
        requires
            a@ == b@,
        ensures
            a == b,
    {
    }
}

impl Default for AgentId {
    fn default() -> (id: AgentId)
        ensures
            is_random_uuid(id@),
    {
        AgentId::new()
    }
}

} // verus!
