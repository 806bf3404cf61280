//! Request and reply: a request is sent, and its sender waits for the one
//! message that answers it, or for the deadline.

use vstd::prelude::*;
use vstd::string::*;
use tokio::sync::oneshot::{Receiver, Sender};
use crate::bindings::{channel_closed_reason, slot_try_recv};
use crate::correlation::{
    after_expiry,
    after_reply,
    awaited,
    due,
    CorrelationTracker,
    Pending,
    Waiter,
};
use crate::error::MessagingError;
use crate::message::{Message, MessageId};
use crate::router::{unroutable, Router};

verus! {

/// Where one request stands.
///
/// A request is created, then sent, and then comes to exactly one of four
/// ends, at which it stays.
#[derive(Debug)]
pub enum RequestState {
    /// Made, and not yet handed to the router.
    Created,
    /// Handed to the router, with a waiter recorded for the reply.
    Sent,
    /// Answered, by the message held here.
    Fulfilled(Message),
    /// Not answered before the deadline.
    TimedOut,
    /// Turned away by the router, with the failure held here.
    SendFailed(MessagingError),
    /// Given up by its sender.
    Cancelled,
}

/// What can happen to a request.
#[derive(Debug)]
pub enum RequestEvent {
    /// The waiter was recorded and the request went to the router.
    Dispatched,
    /// The router turned the request away, with the failure held here.
    Rejected(MessagingError),
    /// The message held here arrived in answer to the request.
    Replied(Message),
    /// The deadline passed while the request was still outstanding.
    DeadlineElapsed,
    /// The sender stopped waiting.
    Abandoned,
}

/// How the wait for a reply came to its end.
#[derive(Debug)]
pub enum Waited {
    /// The slot yielded the reply held here.
    Reply(Message),
    /// The slot was given up without a reply: the waiter had been removed by
    /// someone other than a reply.
    Deserted,
    /// The timeout elapsed first.
    Deadline,
}

impl RequestState {
    /// Whether the request has come to one of its four ends.
    pub open spec fn is_terminal(self) -> bool {
        !(self is Created) && !(self is Sent)
    }

    /// The state that follows `self` when `event` happens.
    ///
    /// A created request is sent when it is dispatched. A sent request ends
    /// with the first of rejection, reply, deadline and abandonment that
    /// happens to it. Every other event leaves the state as it is; in
    /// particular nothing moves a request that has ended.
    pub open spec fn next(self, event: RequestEvent) -> RequestState {
        match (self, event) {
            (RequestState::Created, RequestEvent::Dispatched) => RequestState::Sent,
            (RequestState::Sent, RequestEvent::Rejected(failure)) => RequestState::SendFailed(
                failure,
            ),
            (RequestState::Sent, RequestEvent::Replied(reply)) => RequestState::Fulfilled(reply),
            (RequestState::Sent, RequestEvent::DeadlineElapsed) => RequestState::TimedOut,
            (RequestState::Sent, RequestEvent::Abandoned) => RequestState::Cancelled,
            (state, _) => state,
        }
    }

    /// What the sender of the request is told in the state `self`: the reply,
    /// or the failure, once the request has ended with one of them to tell.
    /// A request that has not ended has no result yet, and a cancelled one
    /// has nobody to tell.
    pub open spec fn result(self) -> Option<Result<Message, MessagingError>> {
        match self {
            RequestState::Fulfilled(reply) => Some(Ok(reply)),
            RequestState::TimedOut => Some(Err(MessagingError::Timeout)),
            RequestState::SendFailed(failure) => Some(Err(failure)),
            _ => None,
        }
    }

    /// Whether the request has come to one of its four ends.
    pub fn has_ended(&self) -> (ended: bool)
        ensures
            ended == self.is_terminal(),
    {
        match self {
            RequestState::Created => false,
            RequestState::Sent => false,
            _ => true,
        }
    }

    /// Moves the request on by one event.
    pub fn advance(self, event: RequestEvent) -> (state: RequestState)
        ensures
            state == self.next(event),
    {
        match self {
            RequestState::Created => match event {
                RequestEvent::Dispatched => RequestState::Sent,
                _ => RequestState::Created,
            },
            RequestState::Sent => match event {
                RequestEvent::Dispatched => RequestState::Sent,
                RequestEvent::Rejected(failure) => RequestState::SendFailed(failure),
                RequestEvent::Replied(reply) => RequestState::Fulfilled(reply),
                RequestEvent::DeadlineElapsed => RequestState::TimedOut,
                RequestEvent::Abandoned => RequestState::Cancelled,
            },
            ended => ended,
        }
    }

    /// What the sender of the request is told, if anything yet.
    pub fn outcome(self) -> (outcome: Option<Result<Message, MessagingError>>)
        ensures
            outcome == self.result(),
    {
        match self {
            RequestState::Fulfilled(reply) => Some(Ok(reply)),
            RequestState::TimedOut => Some(Err(MessagingError::Timeout)),
            RequestState::SendFailed(failure) => Some(Err(failure)),
            _ => None,
        }
    }
}

/// The deadline of a request that starts at the instant `start` and may wait
/// for `timeout`: their sum, or the last instant of the clock if the sum lies
/// beyond it.
pub open spec fn deadline_for(start: u64, timeout: u64) -> u64 {
    if start + timeout > u64::MAX {
        u64::MAX
    } else {
        (start + timeout) as u64
    }
}

/// The state to which `event` brings a sent request whose identifier is
/// `key`, at the instant `now`, given the requests that are outstanding.
///
/// The tracker arbitrates between a reply and the deadline: the deadline
/// ends the request only if its waiter is still there and due. A deadline
/// that finds the waiter gone, or not yet due, leaves the request as it is.
pub open spec fn settled(
    pending: Pending,
    key: u128,
    event: RequestEvent,
    now: u64,
) -> RequestState {
    if event is DeadlineElapsed && !due(pending, key, now) {
        RequestState::Sent
    } else {
        RequestState::Sent.next(event)
    }
}

/// The event that ends a wait.
pub open spec fn ending(waited: Waited) -> RequestEvent {
    match waited {
        Waited::Reply(reply) => RequestEvent::Replied(reply),
        Waited::Deserted => RequestEvent::Abandoned,
        Waited::Deadline => RequestEvent::DeadlineElapsed,
    }
}

/// The event that a look into the slot stands for, after a deadline that did
/// not end the request: the reply, if the slot holds one, and abandonment if
/// it does not.
pub open spec fn late_ending(found: Option<Message>) -> RequestEvent {
    match found {
        Some(reply) => RequestEvent::Replied(reply),
        None => RequestEvent::Abandoned,
    }
}

/// The text of the failure of a request that ended without a reply, a
/// timeout or a send failure to report.
pub open spec fn cancelled_text() -> Seq<char> {
    "request cancelled"@
}

/// Whether `told` is what the sender of a request is told when the request
/// has ended in `state`: the result of that state where it has one, and a
/// failure with `cancelled_text()` where it has none.
pub open spec fn tells(state: RequestState, told: Result<Message, MessagingError>) -> bool {
    match state.result() {
        Some(result) => told == result,
        None => told matches Err(MessagingError::Other(reason)) && reason@ == cancelled_text(),
    }
}

/// Turns the end of a wait into the event that it stands for.
pub fn end_of_wait(waited: Waited) -> (event: RequestEvent)
    ensures
        event == ending(waited),
{
    match waited {
        Waited::Reply(reply) => RequestEvent::Replied(reply),
        Waited::Deserted => RequestEvent::Abandoned,
        Waited::Deadline => RequestEvent::DeadlineElapsed,
    }
}

/// Turns what a look into the slot found, after a deadline that did not end
/// the request, into the event that it stands for.
pub fn late_end_of_wait(found: Option<Message>) -> (event: RequestEvent)
    ensures
        event == late_ending(found),
{
    match found {
        Some(reply) => RequestEvent::Replied(reply),
        None => RequestEvent::Abandoned,
    }
}

/// Turns the state in which a request ended into what its sender is told.
pub fn tell(state: RequestState) -> (told: Result<Message, MessagingError>)
    ensures
        tells(state, told),
{
    match state.outcome() {
        Some(result) => result,
        None => Err(MessagingError::Other(String::from_str("request cancelled"))),
    }
}

/// The text of the failure of a request whose identifier is outstanding
/// already.
pub open spec fn already_pending_text() -> Seq<char> {
    "request already pending"@
}

/// The request/reply protocol, set up with the time that a request may wait
/// for its reply. Instants and the timeout are counted in the same unit, on
/// a clock that never runs backwards.
#[derive(Debug)]
pub struct RequestReply {
    timeout: u64,
}

impl RequestReply {
    /// The time that a request may wait.
    pub closed spec fn timeout_spec(&self) -> u64 {
        self.timeout
    }

    /// The protocol with the given timeout.
    pub fn new(timeout: u64) -> (protocol: RequestReply)
        ensures
            protocol.timeout_spec() == timeout,
    {
        RequestReply { timeout }
    }

    /// The time that a request may wait.
    #[verifier::when_used_as_spec(timeout_spec)]
    pub fn timeout(&self) -> (timeout: u64)
        ensures
            timeout == self.timeout_spec(),
    {
        self.timeout
    }

    /// Sends `request` through `router` and records in `tracker` that its
    /// sender waits for the reply in `slot`, from the instant `now` until the
    /// deadline. The answer is the correlation key: the request's own
    /// identifier, which the reply must carry as its reply reference.
    ///
    /// The waiter is recorded before the request is handed to the router, so
    /// that no reply, however fast, finds the tracker without it. If the
    /// router then fails, the waiter is taken out again before the failure is
    /// reported: a failed call leaves the tracker as it found it.
    ///
    /// The call fails with `Other` if a request with the same identifier is
    /// outstanding already, with `AgentNotFound` if the receiver is not
    /// registered, and with `SendFailed` if the channel finds the receiver's
    /// mailbox closed. Whether the channel does is not for the library to
    /// say; in every other case the call succeeds.
    pub fn send_request(
        &self,
        router: &Router,
        tracker: &mut CorrelationTracker,
        request: Message,
        now: u64,
        slot: Sender<Message>,
    ) -> (sent: Result<MessageId, MessagingError>)
        ensures
            match sent {
                Ok(key) => {
                    &&& key == request@.id
                    &&& !old(tracker)@.contains_key(key@)
                    &&& !unroutable(router@, request@.receiver@)
                    &&& final(tracker)@ == old(tracker)@.insert(
                        key@,
                        Waiter { deadline: deadline_for(now, self.timeout_spec()), slot },
                    )
                },
                Err(error) => {
                    &&& final(tracker)@ == old(tracker)@
                    &&& if old(tracker)@.contains_key(request@.id@) {
                        error matches MessagingError::Other(reason) && reason@
                            == already_pending_text()
                    } else if unroutable(router@, request@.receiver@) {
                        error == MessagingError::AgentNotFound
                    } else {
                        error matches MessagingError::SendFailed(reason) && reason@
                            == channel_closed_reason()
                    }
                },
            },
    {
        let key = request.id();
        let deadline = now.saturating_add(self.timeout);
        if !tracker.register(key, deadline, slot) {
            return Err(MessagingError::Other(String::from_str("request already pending")));
        }
        match router.send(request) {
            Ok(()) => Ok(key),
            Err(error) => {
                tracker.cancel(key);
                Err(error)
            },
        }
    }

    /// Applies `event` to the sent request `key` at the instant `now`, and
    /// answers with the state that the request is in afterwards.
    ///
    /// Whenever the request ends, its waiter is out of the tracker when the
    /// call returns, whichever way it ended: on a reply, on rejection, at
    /// the deadline, or when its sender gives it up. A request that does not
    /// end (because the deadline was not the first to find the waiter, or
    /// has not come yet) leaves the tracker as it was.
    pub fn settle(
        &self,
        tracker: &mut CorrelationTracker,
        key: MessageId,
        event: RequestEvent,
        now: u64,
    ) -> (state: RequestState)
        ensures
            state == settled(old(tracker)@, key@, event, now),
            final(tracker)@ == if state is Sent {
                old(tracker)@
            } else {
                old(tracker)@.remove(key@)
            },
    {
        match event {
            RequestEvent::Dispatched => RequestState::Sent,
            RequestEvent::Rejected(failure) => {
                tracker.cancel(key);
                RequestState::SendFailed(failure)
            },
            RequestEvent::Replied(reply) => {
                tracker.cancel(key);
                RequestState::Fulfilled(reply)
            },
            RequestEvent::DeadlineElapsed => {
                if tracker.expire(key, now) {
                    RequestState::TimedOut
                } else {
                    RequestState::Sent
                }
            },
            RequestEvent::Abandoned => {
                tracker.cancel(key);
                RequestState::Cancelled
            },
        }
    }

    /// Ends the request `key` after its sender has waited, and answers with
    /// what the sender is told.
    ///
    /// A reply is the result. A timeout that finds the request still
    /// outstanding and due ends it with `Timeout`. A timeout that comes
    /// second, after a reply has taken the waiter, finds that reply in the
    /// slot `resolved`, and the reply is the result. A wait that ends with
    /// neither ends with a failure that says so. However the request ends,
    /// its waiter is out of the tracker when the call returns.
    pub fn conclude(
        &self,
        tracker: &mut CorrelationTracker,
        key: MessageId,
        waited: Waited,
        resolved: &mut Receiver<Message>,
        now: u64,
    ) -> (told: Result<Message, MessagingError>)
        ensures
            final(tracker)@ == old(tracker)@.remove(key@),
            settled(old(tracker)@, key@, ending(waited), now).is_terminal() ==> tells(
                settled(old(tracker)@, key@, ending(waited), now),
                told,
            ),
            !settled(old(tracker)@, key@, ending(waited), now).is_terminal() ==> told is Ok
                || tells(RequestState::Cancelled, told),
    {
        let first = self.settle(tracker, key, end_of_wait(waited), now);
        if first.has_ended() {
            tell(first)
        } else {
            let second = self.settle(tracker, key, late_end_of_wait(slot_try_recv(resolved)), now);
            tell(second)
        }
    }
}

/// A request that nobody answers times out once its timeout has elapsed, and
/// leaves no trace: from the instant at which `timeout` has passed since the
/// request was sent at `start`, the request is due; timing it out leaves the
/// outstanding requests as they were before it was sent, and so as many of
/// them; and its sender is told `Timeout`.
pub proof fn lemma_unanswered_request_times_out(
    pending: Pending,
    key: u128,
    slot: Sender<Message>,
    start: u64,
    timeout: u64,
    now: u64,
)
    requires
        !pending.contains_key(key),
        now - start >= timeout,
    ensures
        ({
            let sent = pending.insert(key, Waiter { deadline: deadline_for(start, timeout), slot });
            &&& due(sent, key, now)
            &&& settled(sent, key, ending(Waited::Deadline), now) == RequestState::TimedOut
            &&& after_expiry(sent, key, now) == pending
            &&& sent.remove(key) == pending
            &&& sent.remove(key).len() == pending.len()
        }),
        forall|told: Result<Message, MessagingError>|
            tells(RequestState::TimedOut, told) <==> told == Err::<Message, MessagingError>(
                MessagingError::Timeout,
            ),
{
}

/// Only the first reply to a request resolves it. Once a reply with the
/// reference `reference` has been looked at, no request waits under that
/// reference: a second reply with the same reference is not awaited, so it
/// goes on as ordinary traffic and leaves the outstanding requests as they
/// are. The request stays fulfilled by the first reply, which is what its
/// sender is told.
pub proof fn lemma_first_reply_wins(
    pending: Pending,
    reference: MessageId,
    first: Message,
    second: Message,
)
    ensures
        !awaited(after_reply(pending, Some(reference)), Some(reference)),
        after_reply(after_reply(pending, Some(reference)), Some(reference)) == after_reply(
            pending,
            Some(reference),
        ),
        RequestState::Sent.next(RequestEvent::Replied(first)).next(RequestEvent::Replied(second))
            == RequestState::Fulfilled(first),
        tells(RequestState::Fulfilled(first), Ok(first)),
{
}

/// A request that has ended stays as it ended, whatever happens next: its
/// state does not change, and neither does what its sender is told. A second
/// reply, in particular, does not replace the first.
pub proof fn lemma_ended_request_stays(state: RequestState, event: RequestEvent)
    requires
        state.is_terminal(),
    ensures
        state.next(event) == state,
        state.next(event).result() == state.result(),
{
}

/// A request ends only from the state `Sent`, and then in exactly one of the
/// four ends, which the event decides.
pub proof fn lemma_request_ends_once(state: RequestState, event: RequestEvent)
    requires
        !state.is_terminal(),
        state.next(event).is_terminal(),
    ensures
        state is Sent,
        state.next(event) is SendFailed <==> event is Rejected,
        state.next(event) is Fulfilled <==> event is Replied,
        state.next(event) is TimedOut <==> event is DeadlineElapsed,
        state.next(event) is Cancelled <==> event is Abandoned,
{
}

} // verus!
