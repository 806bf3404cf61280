//! The correlation tracker: which requests still wait for their reply.

use vstd::prelude::*;
use std::collections::HashMap;
use tokio::sync::oneshot::Sender;
use crate::bindings::slot_send;
use crate::message::{Message, MessageId};

verus! {

/// The record of one outstanding request.
#[derive(Debug)]
pub struct Waiter {
    /// The instant, on the caller's monotonic clock, from which the request
    /// counts as timed out.
    pub deadline: u64,
    /// Where the reply goes. A slot takes one reply and is used up by it.
    pub slot: Sender<Message>,
}

/// The outstanding requests as a mathematical map: from the value of a
/// request's identifier, which is its correlation key, to its waiter.
pub type Pending = Map<u128, Waiter>;

/// Whether a message with the reply reference `reference` answers a request
/// that is outstanding in `pending`.
pub open spec fn awaited(pending: Pending, reference: Option<MessageId>) -> bool {
    reference matches Some(key) && pending.contains_key(key@)
}

/// The outstanding requests once a message with the reply reference
/// `reference` has been looked at: the request that it answers, if there is
/// one, is outstanding no longer.
pub open spec fn after_reply(pending: Pending, reference: Option<MessageId>) -> Pending {
    match reference {
        Some(key) => pending.remove(key@),
        None => pending,
    }
}

/// Whether the request `key` is outstanding in `pending` and has reached its
/// deadline at the instant `now`.
pub open spec fn due(pending: Pending, key: u128, now: u64) -> bool {
    pending.contains_key(key) && pending[key].deadline <= now
}

/// The outstanding requests once the request `key` has been asked to time
/// out at the instant `now`: it goes if it is due, and stays otherwise.
pub open spec fn after_expiry(pending: Pending, key: u128, now: u64) -> Pending {
    if due(pending, key, now) {
        pending.remove(key)
    } else {
        pending
    }
}

/// What becomes of a reply, given what the waiter's slot said: a reply that
/// the slot took is consumed, one that it handed back goes on as ordinary
/// traffic.
pub fn pass_on(outcome: Result<(), Message>) -> (passed: Option<Message>)
    ensures
        passed == match outcome {
            Ok(()) => None,
            Err(returned) => Some(returned),
        },
{
    match outcome {
        Ok(()) => None,
        Err(returned) => Some(returned),
    }
}

/// Keeps one waiter for each outstanding request, under the request's
/// identifier, and resolves each at most once.
///
/// Every operation that resolves a request removes its waiter in the same
/// step in which it finds it. Of a reply and a timeout that race for one
/// request, whichever comes first finds the waiter; the other finds nothing
/// and changes nothing.
#[derive(Debug)]
pub struct CorrelationTracker {
    waiters: HashMap<u128, Waiter>,
}

impl View for CorrelationTracker {
    type V = Pending;

    closed spec fn view(&self) -> Pending {
        self.waiters@
    }
}

impl CorrelationTracker {
    /// A tracker with no request outstanding.
    pub fn new() -> (tracker: CorrelationTracker)
        ensures
            tracker@ == Pending::empty(),
    {
        CorrelationTracker { waiters: HashMap::new() }
    }

    /// Records that the request `key` waits, until `deadline`, for a reply
    /// into `slot`. A key that is outstanding already is turned away, and
    /// its waiter stays as it is.
    pub fn register(&mut self, key: MessageId, deadline: u64, slot: Sender<Message>) -> (accepted:
        bool)
        ensures
            accepted == !old(self)@.contains_key(key@),
            final(self)@ == if accepted {
                old(self)@.insert(key@, Waiter { deadline, slot })
            } else {
                old(self)@
            },
    {
        let raw = key.as_u128();
        if self.waiters.contains_key(&raw) {
            false
        } else {
            self.waiters.insert(raw, Waiter { deadline, slot });
            true
        }
    }

    /// Looks at one inbound message before it reaches the agent's ordinary
    /// traffic.
    ///
    /// A message that answers an outstanding request resolves it: the waiter
    /// is removed and the message goes into its slot, where it is consumed.
    /// It comes back only if the slot refuses it, because nobody waits there
    /// any more. Any other message (one that answers nothing, or whose
    /// request is outstanding no longer) comes back as it is, to go on as
    /// ordinary traffic, and the tracker stays as it was.
    pub fn demultiplex(&mut self, inbound: Message) -> (passed: Option<Message>)
        ensures
            final(self)@ == after_reply(old(self)@, inbound@.in_reply_to),
            !awaited(old(self)@, inbound@.in_reply_to) ==> passed == Some(inbound),
            passed matches Some(message) ==> message == inbound,
    {
        let waiter = match inbound.in_reply_to() {
            Some(key) => {
                let raw = key.as_u128();
                self.waiters.remove(&raw)
            },
            None => None,
        };
        match waiter {
            Some(waiter) => pass_on(slot_send(waiter.slot, inbound)),
            None => Some(inbound),
        }
    }

    /// Times the request `key` out if it is outstanding and `now` has
    /// reached its deadline: the waiter is removed and the answer is `true`.
    /// Otherwise nothing changes and the answer is `false`.
    pub fn expire(&mut self, key: MessageId, now: u64) -> (expired: bool)
        ensures
            expired == due(old(self)@, key@, now),
            final(self)@ == after_expiry(old(self)@, key@, now),
    {
        let raw = key.as_u128();
        let is_due = match self.waiters.get(&raw) {
            Some(waiter) => waiter.deadline <= now,
            None => false,
        };
        if is_due {
            self.waiters.remove(&raw);
        }
        is_due
    }

    /// Gives the request `key` up: its waiter is removed if there is one.
    /// The answer says whether there was.
    pub fn cancel(&mut self, key: MessageId) -> (removed: bool)
        ensures
            removed == old(self)@.contains_key(key@),
            final(self)@ == old(self)@.remove(key@),
    {
        let raw = key.as_u128();
        self.waiters.remove(&raw).is_some()
    }

    /// Whether the request `key` is outstanding.
    pub fn is_pending(&self, key: MessageId) -> (pending: bool)
        ensures
            pending == self@.contains_key(key@),
    {
        let raw = key.as_u128();
        self.waiters.contains_key(&raw)
    }

    /// The deadline of the request `key`, if it is outstanding.
    pub fn deadline(&self, key: MessageId) -> (deadline: Option<u64>)
        ensures
            deadline == if self@.contains_key(key@) {
                Some(self@[key@].deadline)
            } else {
                None
            },
    {
        let raw = key.as_u128();
        match self.waiters.get(&raw) {
            Some(waiter) => Some(waiter.deadline),
            None => None,
        }
    }

    /// How many requests are outstanding.
    pub fn outstanding(&self) -> (count: usize)
        ensures
            count == self@.len(),
    {
        self.waiters.len()
    }
}

impl Default for CorrelationTracker {
    fn default() -> (tracker: CorrelationTracker)
        ensures
            tracker@ == Pending::empty(),
    {
        CorrelationTracker::new()
    }
}

/// A request is resolved once. Whichever of a reply, the deadline and the
/// sender's giving up finds the waiter of `key` removes it; whatever comes
/// for `key` afterwards (another reply, the deadline at any later instant,
/// giving up once more) finds nothing and changes nothing.
pub proof fn lemma_resolved_once(pending: Pending, key: MessageId, now: u64, later: u64)
    ensures
        ({
            let replied = after_reply(pending, Some(key));
            &&& !replied.contains_key(key@)
            &&& !awaited(replied, Some(key))
            &&& !due(replied, key@, later)
            &&& after_reply(replied, Some(key)) == replied
            &&& after_expiry(replied, key@, later) == replied
            &&& replied.remove(key@) == replied
        }),
        due(pending, key@, now) ==> ({
            let expired = after_expiry(pending, key@, now);
            &&& !expired.contains_key(key@)
            &&& !awaited(expired, Some(key))
            &&& !due(expired, key@, later)
            &&& after_reply(expired, Some(key)) == expired
            &&& after_expiry(expired, key@, later) == expired
            &&& expired.remove(key@) == expired
        }),
{
}

/// Requests with different identifiers do not touch each other: whether one
/// of them is recorded, answered, timed out or given up, the other is
/// outstanding afterwards exactly if it was before, and with the same
/// waiter.
pub proof fn lemma_requests_are_independent(
    pending: Pending,
    one: MessageId,
    other: MessageId,
    waiter: Waiter,
    now: u64,
)
    requires
        one != other,
    ensures
        pending.insert(one@, waiter).contains_key(other@) == pending.contains_key(other@),
        after_reply(pending, Some(one)).contains_key(other@) == pending.contains_key(other@),
        after_expiry(pending, one@, now).contains_key(other@) == pending.contains_key(other@),
        pending.remove(one@).contains_key(other@) == pending.contains_key(other@),
        pending.contains_key(other@) ==> {
            &&& pending.insert(one@, waiter)[other@] == pending[other@]
            &&& after_reply(pending, Some(one))[other@] == pending[other@]
            &&& after_expiry(pending, one@, now)[other@] == pending[other@]
            &&& pending.remove(one@)[other@] == pending[other@]
        },
{
    if one@ == other@ {
        MessageId::lemma_view_injective(one, other);
    }
}

} // verus!
