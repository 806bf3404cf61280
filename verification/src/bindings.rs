//! What the library takes on trust: the identifier, clock and channel
//! functions that it calls, each with the contract that Verus assumes of it.

use vstd::prelude::*;
use std::time::SystemTime;
use tokio::sync::mpsc::{UnboundedReceiver, UnboundedSender};
use tokio::sync::oneshot::{Receiver, Sender};
use crate::message::Message;

verus! {

/// `std::time::SystemTime`, a reading of the wall clock. The library stamps
/// messages with it and never looks inside.
#[verifier::external_type_specification]
#[verifier::external_body]
pub struct ExSystemTime(std::time::SystemTime);

/// `std::time::SystemTime::now`. Nothing is assumed of the reading.
#[verifier::external_body]
pub(crate) fn current_time() -> (now: SystemTime)
{
    SystemTime::now()
}

/// Whether `bits` has the shape of a random (version 4) UUID: the version
/// field holds 4 and the variant field starts with the bits `10`.
pub open spec fn is_random_uuid(bits: u128) -> bool {
    bits & 0x0000_0000_0000_F000_C000_0000_0000_0000u128
        == 0x0000_0000_0000_4000_8000_0000_0000_0000u128
}

/// `uuid::Uuid::new_v4`, read as a number by `uuid::Uuid::as_u128`.
///
/// The bits come from the operating system's random source, so nothing is
/// assumed of them but what `new_v4` forces on every draw: it overwrites the
/// version and variant fields. The call panics if the system cannot supply
/// random bytes.
#[verifier::external_body]
pub(crate) fn random_uuid_bits() -> (bits: u128)
    ensures
        is_random_uuid(bits),
{
    uuid::Uuid::new_v4().as_u128()
}

/// `tokio::sync::mpsc::UnboundedSender`, the sending half of an unbounded
/// channel: the endpoint through which a mailbox is filled.
///
/// As a value, an endpoint stands for the channel that it feeds and for
/// nothing else. What the channel holds at any moment is shared with whoever
/// holds the other half or another handle, and is not a value that Verus
/// sees.
#[verifier::external_type_specification]
#[verifier::external_body]
#[verifier::reject_recursive_types(T)]
pub struct ExUnboundedSender<T>(tokio::sync::mpsc::UnboundedSender<T>);

/// `tokio::sync::mpsc::UnboundedReceiver`, the receiving half of an unbounded
/// channel: the handle from which an agent drains its mailbox.
#[verifier::external_type_specification]
#[verifier::external_body]
#[verifier::reject_recursive_types(T)]
pub struct ExUnboundedReceiver<T>(tokio::sync::mpsc::UnboundedReceiver<T>);

/// `tokio::sync::oneshot::Sender`, the sending half of a channel that carries
/// at most one value: the slot through which a waiting request is resumed.
#[verifier::external_type_specification]
#[verifier::external_body]
#[verifier::reject_recursive_types(T)]
pub struct ExOneshotSender<T>(tokio::sync::oneshot::Sender<T>);

/// `tokio::sync::oneshot::Receiver`, the receiving half of a channel that
/// carries at most one value: where a waiting request finds its reply.
#[verifier::external_type_specification]
#[verifier::external_body]
#[verifier::reject_recursive_types(T)]
pub struct ExOneshotReceiver<T>(tokio::sync::oneshot::Receiver<T>);

/// `tokio::sync::oneshot::error::RecvError`, with which a wait on a slot
/// ends when the slot is given up. The library names the type because the
/// receiving half does, and never holds a value of it.
#[verifier::external_type_specification]
#[verifier::external_body]
pub struct ExRecvError(tokio::sync::oneshot::error::RecvError);

/// The reason that a channel gives when its receiving half is closed.
pub open spec fn channel_closed_reason() -> Seq<char> {
    "channel closed"@
}

/// `tokio::sync::mpsc::unbounded_channel`. Nothing is assumed of the two
/// halves that come back.
#[verifier::external_body]
pub(crate) fn open_channel() -> (halves: (UnboundedSender<Message>, UnboundedReceiver<Message>))
{
    tokio::sync::mpsc::unbounded_channel()
}

/// `tokio::sync::mpsc::UnboundedSender::send`.
///
/// Whether the message is accepted depends on whether the receiving half is
/// still open when the call is made, which no argument shows. Assumed is only
/// that a refusal is reported with the text in which the channel's error
/// displays itself.
#[verifier::external_body]
pub(crate) fn channel_send(endpoint: &UnboundedSender<Message>, message: Message) -> (outcome:
    Result<(), String>)
    ensures
        outcome matches Err(reason) ==> reason@ == channel_closed_reason(),
{
    match endpoint.send(message) {
        Ok(()) => Ok(()),
        Err(refused) => Err(refused.to_string()),
    }
}

/// `tokio::sync::mpsc::UnboundedReceiver::try_recv`, with both of its errors
/// (nothing queued, channel disconnected) read as `None`. Nothing is assumed
/// of the outcome.
#[verifier::external_body]
pub(crate) fn channel_try_recv(inbound: &mut UnboundedReceiver<Message>) -> (polled: Option<
    Message,
>)
{
    inbound.try_recv().ok()
}

/// `tokio::sync::mpsc::UnboundedReceiver::close`. Nothing is assumed of the
/// receiver afterwards.
#[verifier::external_body]
pub(crate) fn channel_close(inbound: &mut UnboundedReceiver<Message>)
{
    inbound.close()
}

/// `Clone::clone` of a `tokio::sync::mpsc::UnboundedSender`.
///
/// The clone is a second handle on the same channel, the one of which
/// tokio's `same_channel` says so. Assumed is that it is the same value as
/// the handle it was cloned from.
#[verifier::external_body]
pub(crate) fn clone_endpoint(endpoint: &UnboundedSender<Message>) -> (copy: UnboundedSender<
    Message,
>)
    ensures
        copy == *endpoint,
{
    endpoint.clone()
}

/// `tokio::sync::oneshot::Sender::send`.
///
/// Whether the value is accepted depends on whether the receiving half still
/// exists. Assumed is only that a refused value comes back as it was given.
#[verifier::external_body]
pub(crate) fn slot_send(slot: Sender<Message>, reply: Message) -> (outcome: Result<(), Message>)
    ensures
        outcome matches Err(returned) ==> returned == reply,
{
    slot.send(reply)
}

/// `tokio::sync::oneshot::Receiver::try_recv`, with both of its errors (no
/// value yet, no value ever) read as `None`. Nothing is assumed of the
/// outcome.
#[verifier::external_body]
pub(crate) fn slot_try_recv(resolved: &mut Receiver<Message>) -> (reply: Option<Message>)
{
    resolved.try_recv().ok()
}

} // verus!
