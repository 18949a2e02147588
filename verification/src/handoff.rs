//! The hand-off buffer over time: sends and receives in any order.
//!
//! [`crate::channel::OverwriteChannel::send`] and
//! [`crate::channel::OverwriteChannel::try_recv`] say what one operation does
//! to the pending messages. A [`Handoff`] follows a whole sequence of them
//! and keeps account of what was received and what was discarded.

use vstd::prelude::*;
use crate::message::Message;
use crate::ring::push_overwrite;

verus! {

/// The buffer after every message of `msgs` is pushed in turn.
pub open spec fn burst(buf: Seq<Message>, capacity: nat, msgs: Seq<Message>) -> Seq<Message>
    decreases msgs.len(),
{
    if msgs.len() == 0 {
        buf
    } else {
        push_overwrite(burst(buf, capacity, msgs.drop_last()), capacity, msgs.last())
    }
}

/// The last `n` elements of `s`, or all of `s` if it has no more than `n`.
pub open spec fn latest(s: Seq<Message>, n: nat) -> Seq<Message> {
    if s.len() <= n {
        s
    } else {
        s.subrange(s.len() - n, s.len() as int)
    }
}

/// A buffer that receives a burst holds, afterwards, the latest messages
/// that fit: of what it held and what was sent, in that order, the last
/// `capacity`. Nothing else is lost, and nothing changes place.
pub proof fn lemma_burst_keeps_latest(buf: Seq<Message>, capacity: nat, msgs: Seq<Message>)
    requires
        1 <= capacity,
        buf.len() <= capacity,
    ensures
        burst(buf, capacity, msgs) == latest(buf + msgs, capacity),
        burst(buf, capacity, msgs).len() <= capacity,
    decreases msgs.len(),
{
    if msgs.len() > 0 {
        let earlier = msgs.drop_last();
        lemma_burst_keeps_latest(buf, capacity, earlier);
    }
}

/// The overwrite law. When at least as many messages are sent as the buffer
/// has room for, before any is taken out, the buffer holds exactly the last
/// `capacity` of them, in the order sent; the earlier ones are gone,
/// together with whatever the buffer held before.
pub proof fn lemma_overwrite_law(buf: Seq<Message>, capacity: nat, msgs: Seq<Message>)
    requires
        1 <= capacity,
        buf.len() <= capacity,
        msgs.len() >= capacity,
    ensures
        burst(buf, capacity, msgs) == msgs.subrange(msgs.len() - capacity, msgs.len() as int),
{
    lemma_burst_keeps_latest(buf, capacity, msgs);
}

/// Without overflow nothing is lost: a burst that fits into the room left
/// is appended whole.
pub proof fn lemma_burst_that_fits(buf: Seq<Message>, capacity: nat, msgs: Seq<Message>)
    requires
        1 <= capacity,
        buf.len() + msgs.len() <= capacity,
    ensures
        burst(buf, capacity, msgs) == buf + msgs,
{
    lemma_burst_keeps_latest(buf, capacity, msgs);
}

/// One operation on the hand-off buffer.
pub enum Op {
    /// The producer sends a message.
    Send(Message),
    /// The consumer takes the oldest pending message, if there is one.
    Recv,
}

/// The hand-off buffer and its history.
#[verifier::ext_equal]
pub struct Handoff {
    /// The number of messages the buffer has room for.
    pub capacity: nat,
    /// The pending messages, oldest first.
    pub pending: Seq<Message>,
    /// The messages the consumer has taken, in the order taken.
    pub received: Seq<Message>,
    /// The messages discarded to make room, in the order discarded.
    pub discarded: Seq<Message>,
}

impl Handoff {
    /// A buffer with room for `capacity` messages, before anything happens.
    pub open spec fn open(capacity: nat) -> Handoff {
        Handoff {
            capacity,
            pending: Seq::empty(),
            received: Seq::empty(),
            discarded: Seq::empty(),
        }
    }

    /// The hand-off after `op`.
    pub open spec fn apply(self, op: Op) -> Handoff {
        match op {
            Op::Send(msg) => Handoff {
                pending: push_overwrite(self.pending, self.capacity, msg),
                discarded: if self.pending.len() < self.capacity {
                    self.discarded
                } else {
                    self.discarded.push(self.pending[0])
                },
                ..self
            },
            Op::Recv => if self.pending.len() > 0 {
                Handoff {
                    pending: self.pending.drop_first(),
                    received: self.received.push(self.pending[0]),
                    ..self
                }
            } else {
                self
            },
        }
    }

    /// The hand-off after the operations of `ops`, in order.
    pub open spec fn run(self, ops: Seq<Op>) -> Handoff
        decreases ops.len(),
    {
        if ops.len() == 0 {
            self
        } else {
            self.run(ops.drop_last()).apply(ops.last())
        }
    }

    /// No send of `ops` finds the buffer full: the consumer keeps pace with
    /// the producer.
    pub open spec fn keeps_pace(self, ops: Seq<Op>) -> bool {
        forall|i: int|
            0 <= i < ops.len() && #[trigger] ops[i] is Send ==> self.run(ops.take(i)).pending.len()
                < self.capacity
    }
}

/// The messages that `ops` sends, in order.
pub open spec fn sent(ops: Seq<Op>) -> Seq<Message>
    decreases ops.len(),
{
    if ops.len() == 0 {
        Seq::empty()
    } else {
        match ops.last() {
            Op::Send(msg) => sent(ops.drop_last()).push(msg),
            Op::Recv => sent(ops.drop_last()),
        }
    }
}

/// A send is never refused. Whatever the buffer holds, and however full it
/// is, the message sent is pending afterwards, as the newest, and the
/// messages that were pending stay in their order, but for the oldest where
/// there was no room.
pub proof fn lemma_send_is_never_refused(before: Handoff, msg: Message)
    requires
        1 <= before.capacity,
        before.pending.len() <= before.capacity,
    ensures
        before.apply(Op::Send(msg)).pending.last() == msg,
        before.apply(Op::Send(msg)).pending.len() <= before.capacity,
        before.apply(Op::Send(msg)).pending.drop_last() == if before.pending.len()
            < before.capacity {
            before.pending
        } else {
            before.pending.drop_first()
        },
        before.apply(Op::Send(msg)).received == before.received,
{
}

/// The capacity is fixed when the buffer is opened.
pub proof fn lemma_capacity_is_fixed(start: Handoff, ops: Seq<Op>)
    ensures
        start.run(ops).capacity == start.capacity,
    decreases ops.len(),
{
    if ops.len() > 0 {
        lemma_capacity_is_fixed(start, ops.drop_last());
    }
}

/// The buffer never holds more than its capacity, whatever is done to it.
pub proof fn lemma_never_over_capacity(start: Handoff, ops: Seq<Op>)
    requires
        1 <= start.capacity,
        start.pending.len() <= start.capacity,
    ensures
        start.run(ops).pending.len() <= start.capacity,
    decreases ops.len(),
{
    if ops.len() > 0 {
        lemma_never_over_capacity(start, ops.drop_last());
        lemma_capacity_is_fixed(start, ops.drop_last());
    }
}

/// Every message sent is accounted for: it was received, or is pending, or
/// was discarded to make room.
pub proof fn lemma_every_message_accounted_for(start: Handoff, ops: Seq<Op>)
    requires
        1 <= start.capacity,
        start.pending.len() <= start.capacity,
    ensures
        start.run(ops).received.len() + start.run(ops).pending.len() + start.run(
            ops,
        ).discarded.len() == start.received.len() + start.pending.len() + start.discarded.len()
            + sent(ops).len(),
    decreases ops.len(),
{
    if ops.len() > 0 {
        lemma_every_message_accounted_for(start, ops.drop_last());
        lemma_never_over_capacity(start, ops.drop_last());
        lemma_capacity_is_fixed(start, ops.drop_last());
    }
}

/// Nothing is lost while the consumer keeps pace. If no send finds the
/// buffer full, nothing is discarded, and what was received followed by what
/// is pending is what was sent, in the order sent.
pub proof fn lemma_keeping_pace_loses_nothing(start: Handoff, ops: Seq<Op>)
    requires
        start.keeps_pace(ops),
    ensures
        start.run(ops).discarded == start.discarded,
        start.run(ops).received + start.run(ops).pending == start.received + start.pending + sent(
            ops,
        ),
    decreases ops.len(),
{
    if ops.len() > 0 {
        let earlier = ops.drop_last();
        assert forall|i: int| 0 <= i < earlier.len() && #[trigger] earlier[i] is Send implies start.run(
            earlier.take(i),
        ).pending.len() < start.capacity by {
            assert(earlier.take(i) =~= ops.take(i));
        }
        lemma_keeping_pace_loses_nothing(start, earlier);
        lemma_capacity_is_fixed(start, earlier);
        match ops.last() {
            Op::Send(msg) => {
                assert(start.received + start.pending + sent(ops) =~= (start.received
                    + start.pending + sent(earlier)).push(msg));
            },
            Op::Recv => {},
        }
    }
}

/// The operations of a producer that sends the messages of `msgs` in turn.
pub open spec fn sends(msgs: Seq<Message>) -> Seq<Op> {
    Seq::new(msgs.len(), |i: int| Op::Send(msgs[i]))
}

/// The operations of a consumer that tries `n` times to take a message.
pub open spec fn recvs(n: nat) -> Seq<Op> {
    Seq::new(n, |i: int| Op::Recv)
}

/// Operations compose: doing `first` and then `rest` is doing `first + rest`.
pub proof fn lemma_ops_split(start: Handoff, first: Seq<Op>, rest: Seq<Op>)
    ensures
        start.run(first + rest) == start.run(first).run(rest),
    decreases rest.len(),
{
    if rest.len() > 0 {
        assert((first + rest).drop_last() =~= first + rest.drop_last());
        lemma_ops_split(start, first, rest.drop_last());
    }
}

/// A burst of sends, with no receive in between, leaves the buffer as
/// [`burst`] says, and discards every message that does not stay.
pub proof fn lemma_sends(start: Handoff, msgs: Seq<Message>)
    requires
        1 <= start.capacity,
        start.pending.len() <= start.capacity,
    ensures
        start.run(sends(msgs)) == (Handoff {
            pending: latest(start.pending + msgs, start.capacity),
            discarded: start.discarded + (start.pending + msgs).take(
                start.pending.len() + msgs.len() - latest(
                    start.pending + msgs,
                    start.capacity,
                ).len(),
            ),
            ..start
        }),
        start.run(sends(msgs)).pending == burst(start.pending, start.capacity, msgs),
    decreases msgs.len(),
{
    lemma_burst_keeps_latest(start.pending, start.capacity, msgs);
    if msgs.len() > 0 {
        let earlier = msgs.drop_last();
        lemma_sends(start, earlier);
        assert(sends(msgs).drop_last() =~= sends(earlier));
    }
}

/// A consumer that tries at least as often as there are pending messages
/// takes them all, oldest first, and leaves the buffer empty.
pub proof fn lemma_recvs(start: Handoff, n: nat)
    requires
        n >= start.pending.len(),
    ensures
        start.run(recvs(n)) == (Handoff {
            pending: Seq::empty(),
            received: start.received + start.pending,
            ..start
        }),
{
    lemma_recvs_some(start, n);
}

/// A consumer that tries `n` times takes the `n` oldest pending messages,
/// or all of them if there are fewer.
pub proof fn lemma_recvs_some(start: Handoff, n: nat)
    ensures
        start.run(recvs(n)) == (Handoff {
            pending: start.pending.skip(
                if n <= start.pending.len() {
                    n as int
                } else {
                    start.pending.len() as int
                },
            ),
            received: start.received + start.pending.take(
                if n <= start.pending.len() {
                    n as int
                } else {
                    start.pending.len() as int
                },
            ),
            ..start
        }),
    decreases n,
{
    if n > 0 {
        let fewer = (n - 1) as nat;
        lemma_recvs_some(start, fewer);
        assert(recvs(n).drop_last() =~= recvs(fewer));
    }
}

/// The overwrite law, from the consumer's side. Let the producer send at
/// least as many messages as the buffer has room for before the consumer
/// takes any, and
/// let the consumer then take what there is. The consumer receives exactly
/// the last `capacity` messages, in the order sent. The earlier ones were
/// discarded, in the order sent, and are never received.
pub proof fn lemma_consumer_sees_last_capacity(capacity: nat, msgs: Seq<Message>, tries: nat)
    requires
        1 <= capacity <= msgs.len(),
        tries >= capacity,
    ensures
        Handoff::open(capacity).run(sends(msgs) + recvs(tries)) == (Handoff {
            capacity,
            pending: Seq::empty(),
            received: msgs.subrange(msgs.len() - capacity, msgs.len() as int),
            discarded: msgs.take(msgs.len() - capacity),
        }),
{
    let start = Handoff::open(capacity);
    lemma_ops_split(start, sends(msgs), recvs(tries));
    lemma_sends(start, msgs);
    let full = start.run(sends(msgs));
    lemma_recvs(full, tries);
}

} // verus!
