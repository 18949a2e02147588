//! The ring channel of the `ring-channel` crate, as far as this library
//! relies on it. Nothing in this file is proved: it states what the crate's
//! source shows of a channel whose handles are held together, in one place,
//! and shared with no one.

use vstd::prelude::*;
use crate::message::{ChannelClosed, FeederMessage, Message};

verus! {

/// The sending end of a channel, `ring_channel::RingSender`. Its inside is
/// not looked into here.
#[verifier::external_type_specification]
#[verifier::external_body]
#[verifier::reject_recursive_types(T)]
pub struct ExRingSender<T>(ring_channel::RingSender<T>);

/// The receiving end of a channel, `ring_channel::RingReceiver`. Its inside
/// is not looked into here.
#[verifier::external_type_specification]
#[verifier::external_body]
#[verifier::reject_recursive_types(T)]
pub struct ExRingReceiver<T>(ring_channel::RingReceiver<T>);

/// The handles of one channel: its sending end and its receiving end, each
/// present until it is dropped.
pub type Ends = (
    Option<ring_channel::RingSender<FeederMessage>>,
    Option<ring_channel::RingReceiver<FeederMessage>>,
);

/// The largest capacity a channel is opened with: the bound that the
/// allocation of the buffer sets. `ring_channel` allocates one slot for
/// every message the buffer has room for, all of them when the channel is
/// opened, and panics where they would take more than `isize::MAX` bytes. A
/// slot holds a counter of at most eight bytes and a message, less than 64
/// bytes together, so that up to this capacity the slots stay below that
/// size; the power of two above the capacity, which the buffer counts its
/// laps with, fits its counter as well. Whether the machine has the memory
/// is not a matter of the capacity alone and is left open here, as for
/// every allocation.
pub const MAX_CAPACITY: usize = usize::MAX / 128;

/// The capacity that the buffer of the channel of `ends` was made with: the
/// number of messages it has room for. It is spoken of while at least one
/// handle of the channel is present in `ends`.
pub uninterp spec fn ring_capacity(ends: Ends) -> nat;

/// The messages pending in the buffer of the channel of `ends`, oldest
/// first. It is spoken of while at least one handle of the channel is
/// present in `ends`.
pub uninterp spec fn ring_pending(ends: Ends) -> Seq<Message>;

/// The buffer after `msg` is pushed: appended, in place of the oldest
/// message if the buffer was full.
pub open spec fn push_overwrite(buf: Seq<Message>, capacity: nat, msg: Message) -> Seq<Message> {
    if buf.len() < capacity {
        buf.push(msg)
    } else {
        buf.drop_first().push(msg)
    }
}

/// `ring_channel::ring_channel` opens a channel with an empty buffer of the
/// given capacity and returns its two ends, the only handles there are.
#[verifier::external_body]
pub(crate) fn ring_open(capacity: usize) -> (ends: Ends)
    requires
        1 <= capacity <= MAX_CAPACITY,
    ensures
        ends.0 is Some,
        ends.1 is Some,
        ring_capacity(ends) == capacity,
        ring_pending(ends) == Seq::<Message>::empty(),
{
    let (sender, receiver) =
        ring_channel::ring_channel(std::num::NonZeroUsize::new(capacity).unwrap());
    (Some(sender), Some(receiver))
}

/// `ring_channel::RingSender::send` pushes the message into the buffer
/// while a receiving end is alive: where the buffer was full, the oldest
/// pending message makes room and is handed back. With no receiving end
/// left it changes nothing and hands the message back as an error.
#[verifier::external_body]
pub(crate) fn ring_send(ends: &mut Ends, msg: FeederMessage) -> (result: Result<
    Option<FeederMessage>,
    FeederMessage,
>)
    requires
        old(ends).0 is Some,
        ring_capacity(*old(ends)) >= 1,
        ring_pending(*old(ends)).len() <= ring_capacity(*old(ends)),
    ensures
        final(ends).0 is Some,
        final(ends).1 is Some <==> old(ends).1 is Some,
        ring_capacity(*final(ends)) == ring_capacity(*old(ends)),
        match result {
            Ok(evicted) => {
                &&& old(ends).1 is Some
                &&& ring_pending(*final(ends)) == push_overwrite(
                    ring_pending(*old(ends)),
                    ring_capacity(*old(ends)),
                    msg@,
                )
                &&& match evicted {
                    Some(oldest) => {
                        &&& ring_pending(*old(ends)).len() == ring_capacity(*old(ends))
                        &&& oldest@ == ring_pending(*old(ends))[0]
                    },
                    None => ring_pending(*old(ends)).len() < ring_capacity(*old(ends)),
                }
            },
            Err(returned) => {
                &&& old(ends).1 is None
                &&& returned@ == msg@
                &&& ring_pending(*final(ends)) == ring_pending(*old(ends))
            },
        },
{
    match ends.0.as_ref().unwrap().send(msg) {
        Ok(evicted) => Ok(evicted),
        Err(ring_channel::SendError::Disconnected(msg)) => Err(msg),
    }
}

/// `ring_channel::RingReceiver::try_recv` takes the oldest pending message
/// out of the buffer, if there is one. If there is none it does not wait: it
/// reports the buffer empty while a sending end is alive, and the channel
/// disconnected when none is left.
#[verifier::external_body]
pub(crate) fn ring_try_recv(ends: &mut Ends) -> (result: Result<
    Option<FeederMessage>,
    ChannelClosed,
>)
    requires
        old(ends).1 is Some,
        ring_capacity(*old(ends)) >= 1,
    ensures
        final(ends).0 is Some <==> old(ends).0 is Some,
        final(ends).1 is Some,
        ring_capacity(*final(ends)) == ring_capacity(*old(ends)),
        match result {
            Ok(Some(msg)) => {
                &&& ring_pending(*old(ends)).len() > 0
                &&& msg@ == ring_pending(*old(ends))[0]
                &&& ring_pending(*final(ends)) == ring_pending(*old(ends)).drop_first()
            },
            Ok(None) => {
                &&& ring_pending(*old(ends)).len() == 0
                &&& old(ends).0 is Some
                &&& ring_pending(*final(ends)) == ring_pending(*old(ends))
            },
            Err(_) => {
                &&& ring_pending(*old(ends)).len() == 0
                &&& old(ends).0 is None
                &&& ring_pending(*final(ends)) == ring_pending(*old(ends))
            },
        },
{
    match ends.1.as_ref().unwrap().try_recv() {
        Ok(msg) => Ok(Some(msg)),
        Err(ring_channel::TryRecvError::Empty) => Ok(None),
        Err(ring_channel::TryRecvError::Disconnected) => Err(ChannelClosed),
    }
}

/// Dropping a `ring_channel::RingSender` leaves the channel without that
/// sending end. While the receiving end is present the buffer stays as it
/// was; with the last handle the buffer goes too, and nothing is said of it.
#[verifier::external_body]
pub(crate) fn ring_drop_sender(ends: &mut Ends)
    ensures
        final(ends).0 is None,
        final(ends).1 is Some <==> old(ends).1 is Some,
        old(ends).1 is Some ==> ring_capacity(*final(ends)) == ring_capacity(*old(ends)),
        old(ends).1 is Some ==> ring_pending(*final(ends)) == ring_pending(*old(ends)),
{
    ends.0 = None;
}

/// Dropping a `ring_channel::RingReceiver` leaves the channel without that
/// receiving end. While the sending end is present the buffer stays as it
/// was; with the last handle the buffer goes too, and nothing is said of it.
#[verifier::external_body]
pub(crate) fn ring_drop_receiver(ends: &mut Ends)
    ensures
        final(ends).0 is Some <==> old(ends).0 is Some,
        final(ends).1 is None,
        old(ends).0 is Some ==> ring_capacity(*final(ends)) == ring_capacity(*old(ends)),
        old(ends).0 is Some ==> ring_pending(*final(ends)) == ring_pending(*old(ends)),
{
    ends.1 = None;
}

} // verus!
