//! The bounded hand-off buffer between producer and writer.

use vstd::prelude::*;
use crate::handoff::{burst, latest, lemma_burst_keeps_latest};
use crate::message::{ChannelClosed, FeederMessage, Message};
use crate::ring::{
    push_overwrite, ring_capacity, ring_drop_receiver, ring_drop_sender, ring_open, ring_pending,
    ring_send, ring_try_recv, Ends, MAX_CAPACITY,
};

verus! {

/// The capacity used where the caller names none.
pub const DEFAULT_CAPACITY: usize = 1024;

/// The values of a vector of messages.
pub open spec fn messages(msgs: Seq<FeederMessage>) -> Seq<Message> {
    Seq::new(msgs.len(), |i: int| msgs[i]@)
}

/// The lines of a vector, each as the record that carries it.
pub open spec fn records(lines: Seq<String>) -> Seq<Message> {
    Seq::new(lines.len(), |i: int| Message::Line(lines[i]@))
}

/// A fixed-capacity buffer of messages that never refuses one: when it is
/// full, the oldest pending message is discarded to admit the newest.
///
/// Its value, `self@`, is the sequence of pending messages, oldest first.
/// The channel holds both of its sides. Either can be closed for good, as
/// happens when the producer or the consumer goes away: a channel whose
/// receiving side is closed takes no more messages, and one whose sending
/// side is closed reports so once it is empty. With both sides closed the
/// buffer is gone, and nothing is pending.
pub struct OverwriteChannel {
    ends: Ends,
    capacity: usize,
}

impl View for OverwriteChannel {
    type V = Seq<Message>;

    closed spec fn view(&self) -> Seq<Message> {
        if self.ends.0 is Some || self.ends.1 is Some {
            ring_pending(self.ends)
        } else {
            Seq::empty()
        }
    }
}

impl OverwriteChannel {
    /// The channel is whole: it holds no more than its capacity, which is
    /// at least one. [`OverwriteChannel::new`] establishes this and every
    /// operation keeps it.
    pub closed spec fn wf(&self) -> bool {
        &&& 1 <= self.capacity <= MAX_CAPACITY
        &&& self.ends.0 is Some || self.ends.1 is Some ==> {
            &&& ring_capacity(self.ends) == self.capacity
            &&& ring_pending(self.ends).len() <= self.capacity
        }
    }

    /// The number of messages the buffer has room for.
    pub closed spec fn room(&self) -> nat {
        self.capacity as nat
    }

    /// The sending side has not been closed.
    pub closed spec fn sender_open(&self) -> bool {
        self.ends.0 is Some
    }

    /// The receiving side has not been closed.
    pub closed spec fn receiver_open(&self) -> bool {
        self.ends.1 is Some
    }

    /// Opens an empty channel with room for `capacity` messages, or none if
    /// `capacity` is zero or above [`MAX_CAPACITY`].
    pub fn new(capacity: usize) -> (opened: Option<OverwriteChannel>)
        ensures
            opened is Some <==> 1 <= capacity <= MAX_CAPACITY,
            opened matches Some(channel) ==> {
                &&& channel.wf()
                &&& channel.sender_open()
                &&& channel.receiver_open()
                &&& channel@ == Seq::<Message>::empty()
                &&& channel.room() == capacity
            },
    {
        if capacity == 0 || capacity > MAX_CAPACITY {
            None
        } else {
            Some(OverwriteChannel { ends: ring_open(capacity), capacity })
        }
    }

    /// The number of messages the buffer has room for. It is at least one,
    /// and the buffer never holds more.
    pub fn capacity(&self) -> (capacity: usize)
        requires
            self.wf(),
        ensures
            capacity == self.room(),
            1 <= capacity <= MAX_CAPACITY,
            self@.len() <= capacity,
    {
        self.capacity
    }

    /// Whether the sending side has not been closed.
    pub fn is_sender_open(&self) -> (open: bool)
        ensures
            open == self.sender_open(),
    {
        self.ends.0.is_some()
    }

    /// Whether the receiving side has not been closed.
    pub fn is_receiver_open(&self) -> (open: bool)
        ensures
            open == self.receiver_open(),
    {
        self.ends.1.is_some()
    }

    /// A whole channel holds no more than its capacity, which is at least
    /// one.
    pub proof fn lemma_bounded(&self)
        requires
            self.wf(),
        ensures
            1 <= self.room() <= MAX_CAPACITY,
            self@.len() <= self.room(),
    {
    }

    /// Puts `msg` into the buffer. While the receiving side is open this
    /// succeeds, whatever the buffer holds: if it is full, the oldest
    /// pending message is taken out and handed back, and is lost to the
    /// receiving side. It fails only when the receiving side is closed, and
    /// then changes nothing.
    pub fn send(&mut self, msg: FeederMessage) -> (result: Result<
        Option<FeederMessage>,
        ChannelClosed,
    >)
        requires
            old(self).wf(),
            old(self).sender_open(),
        ensures
            final(self).wf(),
            final(self).room() == old(self).room(),
            final(self).sender_open(),
            final(self).receiver_open() == old(self).receiver_open(),
            result is Ok <==> old(self).receiver_open(),
            match result {
                Ok(evicted) => {
                    &&& final(self)@ == push_overwrite(old(self)@, old(self).room(), msg@)
                    &&& match evicted {
                        Some(oldest) => {
                            &&& old(self)@.len() == old(self).room()
                            &&& oldest@ == old(self)@[0]
                        },
                        None => old(self)@.len() < old(self).room(),
                    }
                },
                Err(_) => final(self)@ == old(self)@,
            },
    {
        match ring_send(&mut self.ends, msg) {
            Ok(evicted) => Ok(evicted),
            Err(_) => Err(ChannelClosed),
        }
    }

    /// Takes the oldest pending message out of the buffer. If the buffer is
    /// empty it answers at once: with no message while the sending side is
    /// open, with [`ChannelClosed`] once it is closed.
    pub fn try_recv(&mut self) -> (result: Result<Option<FeederMessage>, ChannelClosed>)
        requires
            old(self).wf(),
            old(self).receiver_open(),
        ensures
            final(self).wf(),
            final(self).room() == old(self).room(),
            final(self).sender_open() == old(self).sender_open(),
            final(self).receiver_open(),
            match result {
                Ok(Some(msg)) => {
                    &&& old(self)@.len() > 0
                    &&& msg@ == old(self)@[0]
                    &&& final(self)@ == old(self)@.drop_first()
                },
                Ok(None) => {
                    &&& old(self)@.len() == 0
                    &&& old(self).sender_open()
                    &&& final(self)@ == old(self)@
                },
                Err(_) => {
                    &&& old(self)@.len() == 0
                    &&& !old(self).sender_open()
                    &&& final(self)@ == old(self)@
                },
            },
    {
        ring_try_recv(&mut self.ends)
    }

    /// Takes the oldest pending message out of the buffer, or reports
    /// [`ChannelClosed`] when the buffer is empty and the sending side is
    /// closed. It is not for an empty buffer whose sending side is open:
    /// there a receiver has to wait for the producer, and this channel
    /// holds the producer's side itself.
    pub fn recv(&mut self) -> (result: Result<FeederMessage, ChannelClosed>)
        requires
            old(self).wf(),
            old(self).receiver_open(),
            old(self).sender_open() ==> old(self)@.len() > 0,
        ensures
            final(self).wf(),
            final(self).room() == old(self).room(),
            final(self).sender_open() == old(self).sender_open(),
            final(self).receiver_open(),
            result is Ok <==> old(self)@.len() > 0,
            match result {
                Ok(msg) => msg@ == old(self)@[0] && final(self)@ == old(self)@.drop_first(),
                Err(_) => final(self)@ == old(self)@,
            },
    {
        match ring_try_recv(&mut self.ends) {
            Ok(Some(msg)) => Ok(msg),
            Ok(None) => Err(ChannelClosed),
            Err(closed) => Err(closed),
        }
    }

    /// Closes the sending side for good, as when the producer goes away.
    /// While the receiving side is open, what is pending stays and can
    /// still be received; with both sides closed nothing is pending.
    pub fn close_sender(&mut self)
        requires
            old(self).wf(),
        ensures
            final(self).wf(),
            final(self).room() == old(self).room(),
            !final(self).sender_open(),
            final(self).receiver_open() == old(self).receiver_open(),
            final(self)@ == if old(self).receiver_open() {
                old(self)@
            } else {
                Seq::<Message>::empty()
            },
    {
        ring_drop_sender(&mut self.ends);
    }

    /// Closes the receiving side for good, as when the consumer goes away.
    /// While the sending side is open, what is pending stays, out of reach;
    /// with both sides closed nothing is pending.
    pub fn close_receiver(&mut self)
        requires
            old(self).wf(),
        ensures
            final(self).wf(),
            final(self).room() == old(self).room(),
            final(self).sender_open() == old(self).sender_open(),
            !final(self).receiver_open(),
            final(self)@ == if old(self).sender_open() {
                old(self)@
            } else {
                Seq::<Message>::empty()
            },
    {
        ring_drop_receiver(&mut self.ends);
    }

    /// Sends every line of `lines` as a record, in order, and returns how
    /// many pending messages were discarded to make room.
    pub fn send_lines(&mut self, lines: &Vec<String>) -> (discarded: usize)
        requires
            old(self).wf(),
            old(self).sender_open(),
            old(self).receiver_open(),
        ensures
            final(self).wf(),
            final(self).room() == old(self).room(),
            final(self).sender_open(),
            final(self).receiver_open(),
            final(self)@ == burst(old(self)@, old(self).room(), records(lines@)),
            final(self)@ == latest(old(self)@ + records(lines@), old(self).room()),
            discarded == old(self)@.len() + lines.len() - final(self)@.len(),
    {
        let ghost start = self@;
        let ghost room = self.room();
        let mut discarded: usize = 0;
        let mut i: usize = 0;
        while i < lines.len()
            invariant
                i <= lines.len(),
                self.wf(),
                self.sender_open(),
                self.receiver_open(),
                self.room() == room,
                start.len() <= room,
                self@ == burst(start, room, records(lines@).take(i as int)),
                discarded == start.len() + i - self@.len(),
            decreases lines.len() - i,
        {
            proof {
                self.lemma_bounded();
                let sent = records(lines@).take(i as int + 1);
                assert(sent.drop_last() =~= records(lines@).take(i as int));
                assert(sent.last() == Message::Line(lines@[i as int]@));
            }
            let evicted = self.send(FeederMessage::Line(lines[i].clone()));
            match evicted {
                Ok(Some(_)) => {
                    discarded = discarded + 1;
                },
                _ => {},
            }
            i = i + 1;
        }
        proof {
            assert(records(lines@).take(lines.len() as int) =~= records(lines@));
            old(self).lemma_bounded();
            lemma_burst_keeps_latest(start, room, records(lines@));
        }
        discarded
    }

    /// Takes out everything that is pending, oldest first.
    pub fn drain(&mut self) -> (taken: Vec<FeederMessage>)
        requires
            old(self).wf(),
            old(self).receiver_open(),
        ensures
            final(self).wf(),
            final(self).room() == old(self).room(),
            final(self).sender_open() == old(self).sender_open(),
            final(self).receiver_open(),
            messages(taken@) == old(self)@,
            final(self)@ == Seq::<Message>::empty(),
    {
        let ghost start = self@;
        let ghost room = self.room();
        let ghost sending = self.sender_open();
        let mut taken: Vec<FeederMessage> = Vec::new();
        loop
            invariant
                self.wf(),
                self.receiver_open(),
                self.sender_open() == sending,
                self.room() == room,
                messages(taken@) + self@ == start,
            ensures
                self@.len() == 0,
            decreases self@.len(),
        {
            let ghost before = taken@;
            let ghost pending = self@;
            match self.try_recv() {
                Ok(Some(msg)) => {
                    taken.push(msg);
                    assert(messages(taken@) =~= messages(before).push(pending[0]));
                    assert(messages(taken@) + self@ =~= messages(before) + pending);
                },
                _ => {
                    break ;
                },
            }
        }
        assert(messages(taken@) =~= start);
        assert(self@ =~= Seq::<Message>::empty());
        taken
    }

    /// Gives up the channel for its two ends, to be moved to the threads
    /// that produce and consume; none if a side has been closed. The ends
    /// are those of this channel: they come with its capacity and with what
    /// is pending in it.
    pub fn into_ends(self) -> (ends: Option<
        (ring_channel::RingSender<FeederMessage>, ring_channel::RingReceiver<FeederMessage>),
    >)
        requires
            self.wf(),
        ensures
            ends is Some <==> self.sender_open() && self.receiver_open(),
            ends matches Some(pair) ==> {
                &&& ring_capacity((Some(pair.0), Some(pair.1))) == self.room()
                &&& ring_pending((Some(pair.0), Some(pair.1))) == self@
            },
    {
        match self.ends {
            (Some(sender), Some(receiver)) => Some((sender, receiver)),
            _ => None,
        }
    }
}

} // verus!
