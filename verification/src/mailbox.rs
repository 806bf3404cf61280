//! An agent's mailbox: both halves of one channel, held together.

use vstd::prelude::*;
use vstd::string::*;
use tokio::sync::mpsc::{UnboundedReceiver, UnboundedSender};
use crate::bindings::{
    channel_close,
    channel_closed_reason,
    channel_send,
    channel_try_recv,
    clone_endpoint,
    open_channel,
};
use crate::message::Message;

verus! {

/// The words that a mailbox puts before the channel's reason when it turns a
/// message away.
pub open spec fn refusal_prefix() -> Seq<char> {
    "Failed to send message: "@
}

/// The text with which a closed mailbox turns a message away.
pub open spec fn refusal_text() -> Seq<char> {
    refusal_prefix() + channel_closed_reason()
}

/// Turns what the channel said about an enqueue into what the caller is
/// told: success stays success, and a refusal is passed on with the
/// channel's reason after `refusal_prefix()`.
pub fn report_enqueue(outcome: Result<(), String>) -> (report: Result<(), String>)
    ensures
        match outcome {
            Ok(()) => report is Ok,
            Err(reason) => report matches Err(text) && text@ == refusal_prefix() + reason@,
        },
{
    match outcome {
        Ok(()) => Ok(()),
        Err(reason) => Err(String::from_str("Failed to send message: ").concat(reason.as_str())),
    }
}

/// An ordered, unbounded queue of messages for one agent.
///
/// The queue itself lives in the channel. The mailbox knows its own endpoint
/// and whether it has been closed; what is queued at a given moment depends
/// on who else holds the endpoint, and is not a value that Verus sees.
#[derive(Debug)]
pub struct Mailbox {
    receiver: UnboundedReceiver<Message>,
    sender: UnboundedSender<Message>,
    closed: bool,
}

impl Mailbox {
    /// The endpoint through which the mailbox is filled.
    pub closed spec fn endpoint(&self) -> UnboundedSender<Message> {
        self.sender
    }

    /// Whether the mailbox has been closed.
    pub closed spec fn is_closed_spec(&self) -> bool {
        self.closed
    }

    /// An open mailbox on a channel of its own.
    pub fn new() -> (mailbox: Mailbox)
        ensures
            !mailbox.is_closed_spec(),
    {
        let (sender, receiver) = open_channel();
        Mailbox { receiver, sender, closed: false }
    }

    /// A handle on the mailbox's endpoint, for others to send through.
    pub fn sender(&self) -> (endpoint: UnboundedSender<Message>)
        ensures
            endpoint == self.endpoint(),
    {
        clone_endpoint(&self.sender)
    }

    /// Takes the next message if one is queued, without waiting. What comes
    /// back depends on the channel; the mailbox's endpoint and its being
    /// open or closed do not change.
    pub fn try_receive(&mut self) -> (polled: Option<Message>)
        ensures
            final(self).endpoint() == old(self).endpoint(),
            final(self).is_closed_spec() == old(self).is_closed_spec(),
    {
        channel_try_recv(&mut self.receiver)
    }

    /// Puts `message` at the back of the queue.
    ///
    /// A closed mailbox turns every message away, with `refusal_text()`. An
    /// open one hands the message to the channel, which takes it or, if it
    /// finds the receiving half closed, refuses it with the same text.
    pub fn send(&self, message: Message) -> (sent: Result<(), String>)
        ensures
            self.is_closed_spec() ==> sent is Err,
            sent matches Err(text) ==> text@ == refusal_text(),
    {
        let outcome = if self.closed {
            Err(String::from_str("channel closed"))
        } else {
            channel_send(&self.sender, message)
        };
        report_enqueue(outcome)
    }

    /// Closes the mailbox: from now on every `send` is turned away, while
    /// what is queued already can still be taken out. Closing twice is the
    /// same as closing once.
    pub fn close(&mut self)
        ensures
            final(self).is_closed_spec(),
            final(self).endpoint() == old(self).endpoint(),
    {
        channel_close(&mut self.receiver);
        self.closed = true;
    }

    /// Whether the mailbox has been closed.
    #[verifier::when_used_as_spec(is_closed_spec)]
    pub fn is_closed(&self) -> (closed: bool)
        ensures
            closed == self.is_closed_spec(),
    {
        self.closed
    }

    /// The receiving half, for a caller that waits on it.
    pub fn receiver_mut(&mut self) -> (inbound: &mut UnboundedReceiver<Message>)
        ensures
            *inbound == old(self).receiving_half(),
            final(self).receiving_half() == *final(inbound),
            final(self).endpoint() == old(self).endpoint(),
            final(self).is_closed_spec() == old(self).is_closed_spec(),
    {
        &mut self.receiver
    }

    /// The half of the channel from which the mailbox is drained.
    ///
    /// `receiver_mut` lends out this half and no other: the reference starts
    /// as the half is, and what the caller leaves behind it is the mailbox's
    /// receiving half afterwards. The mailbox's endpoint and its being open
    /// or closed are out of the borrower's reach.
    pub closed spec fn receiving_half(&self) -> UnboundedReceiver<Message> {
        self.receiver
    }
}

impl Default for Mailbox {
    fn default() -> (mailbox: Mailbox)
        ensures
            !mailbox.is_closed_spec(),
    {
        Mailbox::new()
    }
}

} // verus!
