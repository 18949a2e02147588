//! Runs of the writer: what a sequence of events makes it do.
//!
//! A run starts from a writer's value and feeds it events in order, as
//! [`crate::feeder::RedisFeeder::handle`] does one at a time. The [`Tally`]
//! of a run counts what the events stood for: which records went to the
//! store and how often, which arrived and which were given up, how often the
//! connection was rebuilt and after what delays.

use vstd::prelude::*;
use crate::feeder::{DirectiveView, EventView, FailureClass, FeederView, Notice, State};
use crate::handoff::{lemma_keeping_pace_loses_nothing, sent, Handoff, Op};
use crate::message::Message;

verus! {

/// What a run of the writer did.
#[verifier::ext_equal]
pub struct Tally {
    /// The records taken on from the hand-off buffer, in order.
    pub accepted: Seq<Seq<char>>,
    /// The record of every store attempt that was made, in order.
    pub attempts: Seq<Seq<char>>,
    /// The records the store accepted, in order.
    pub delivered: Seq<Seq<char>>,
    /// The records given up after a fatal failure, in order.
    pub abandoned: Seq<Seq<char>>,
    /// How often a lost connection made the writer reconnect.
    pub reconnects: nat,
    /// How many connection attempts were made.
    pub connects: nat,
    /// For every connection attempt that followed a failed one, the seconds
    /// slept before it.
    pub delays: Seq<u64>,
}

impl Tally {
    /// The tally of a run without events.
    pub open spec fn nothing() -> Tally {
        Tally {
            accepted: Seq::empty(),
            attempts: Seq::empty(),
            delivered: Seq::empty(),
            abandoned: Seq::empty(),
            reconnects: 0,
            connects: 0,
            delays: Seq::empty(),
        }
    }

    /// The tally of a run followed by another.
    pub open spec fn followed_by(self, later: Tally) -> Tally {
        Tally {
            accepted: self.accepted + later.accepted,
            attempts: self.attempts + later.attempts,
            delivered: self.delivered + later.delivered,
            abandoned: self.abandoned + later.abandoned,
            reconnects: self.reconnects + later.reconnects,
            connects: self.connects + later.connects,
            delays: self.delays + later.delays,
        }
    }
}

/// `n` times `x`.
pub open spec fn repeat<T>(x: T, n: nat) -> Seq<T> {
    Seq::new(n, |i: int| x)
}

/// `[x]`, or nothing.
pub open spec fn one_if<T>(present: bool, x: T) -> Seq<T> {
    if present {
        seq![x]
    } else {
        Seq::empty()
    }
}

/// The record a store attempt is outstanding for, or that waits for the
/// connection to be rebuilt.
pub open spec fn in_flight(state: State) -> Seq<char> {
    match state {
        State::Storing { line } => line,
        State::Reconnecting { line, .. } => line,
        _ => Seq::empty(),
    }
}

/// The step answers a store attempt.
pub open spec fn answers_store(notice: Notice) -> bool {
    notice == Notice::Delivered || notice == Notice::ConnectionLost || notice == Notice::Abandoned
}

/// The step answers a connection attempt.
pub open spec fn answers_connect(notice: Notice) -> bool {
    notice == Notice::Connected || notice == Notice::Reconnected || notice
        == Notice::ConnectFailed
}

/// What the step of `feeder` on `event` adds to a tally.
pub open spec fn step_tally(feeder: FeederView, event: EventView) -> Tally {
    let notice = feeder.state.notice(event);
    let record = in_flight(feeder.state);
    Tally {
        accepted: match event {
            EventView::Received(Message::Line(line)) => one_if(notice == Notice::Accepted, line),
            _ => Seq::empty(),
        },
        attempts: one_if(answers_store(notice), record),
        delivered: one_if(notice == Notice::Delivered, record),
        abandoned: one_if(notice == Notice::Abandoned, record),
        reconnects: if notice == Notice::ConnectionLost {
            1
        } else {
            0
        },
        connects: if answers_connect(notice) {
            1
        } else {
            0
        },
        delays: match feeder.directive() {
            DirectiveView::Retry { delay, .. } => one_if(answers_connect(notice), delay),
            _ => Seq::empty(),
        },
    }
}

impl FeederView {
    /// The writer after the events of `events`, in order.
    pub open spec fn run(self, events: Seq<EventView>) -> FeederView
        decreases events.len(),
    {
        if events.len() == 0 {
            self
        } else {
            self.after(events[0]).run(events.drop_first())
        }
    }

    /// What the writer does over the events of `events`.
    pub open spec fn tally(self, events: Seq<EventView>) -> Tally
        decreases events.len(),
    {
        if events.len() == 0 {
            Tally::nothing()
        } else {
            step_tally(self, events[0]).followed_by(self.after(events[0]).tally(events.drop_first()))
        }
    }
}

/// Runs compose: a run over `first + rest` is the run over `first` followed
/// by the run over `rest` from where the first one ended, and its tally is
/// the two tallies in that order.
pub proof fn lemma_run_splits(feeder: FeederView, first: Seq<EventView>, rest: Seq<EventView>)
    ensures
        feeder.run(first + rest) == feeder.run(first).run(rest),
        feeder.tally(first + rest) == feeder.tally(first).followed_by(feeder.run(first).tally(rest)),
    decreases first.len(),
{
    if first.len() > 0 {
        let all = first + rest;
        assert(all.drop_first() =~= first.drop_first() + rest);
        let stepped = feeder.after(first[0]);
        lemma_run_splits(stepped, first.drop_first(), rest);
        let head = step_tally(feeder, first[0]);
        let mid = stepped.tally(first.drop_first());
        let tail = stepped.run(first.drop_first()).tally(rest);
        assert(head.followed_by(mid.followed_by(tail)) =~= head.followed_by(mid).followed_by(tail));
    }
}

/// A run over a single event is one step.
pub proof fn lemma_one_event(feeder: FeederView, event: EventView)
    ensures
        feeder.run(seq![event]) == feeder.after(event),
        feeder.tally(seq![event]) == step_tally(feeder, event),
{
    let events = seq![event];
    let end = feeder.after(event);
    assert(end.run(events.drop_first()) == end);
    assert(end.tally(events.drop_first()) == Tally::nothing());
}

/// Whether a connection is held after the step of `state` on `event`, if
/// `held` says whether one was held before: a successful attempt gives one,
/// a store attempt that fails for want of a connection shows it gone.
pub open spec fn holds_after(held: bool, state: State, event: EventView) -> bool {
    match state.notice(event) {
        Notice::Connected | Notice::Reconnected => true,
        Notice::ConnectionLost => false,
        _ => held,
    }
}

/// Whether a connection is held after a run.
pub open spec fn holds(held: bool, state: State, events: Seq<EventView>) -> bool
    decreases events.len(),
{
    if events.len() == 0 {
        held
    } else {
        holds(holds_after(held, state, events[0]), state.next(events[0]), events.drop_first())
    }
}

/// The store is addressed over a live connection only. Start a writer where
/// its state does not claim a connection it lacks, as a new writer does, and
/// report what you will: whenever it is then in a connected state, and so
/// whenever it wants a record stored, a connection attempt has succeeded and
/// no store attempt has since failed for want of a connection.
pub proof fn lemma_connected_when_storing(feeder: FeederView, held: bool, events: Seq<EventView>)
    requires
        feeder.state.connected() ==> held,
    ensures
        feeder.run(events).state.connected() ==> holds(held, feeder.state, events),
        feeder.run(events).directive() is Store ==> feeder.run(events).state.connected(),
    decreases events.len(),
{
    if events.len() > 0 {
        lemma_connected_when_storing(
            feeder.after(events[0]),
            holds_after(held, feeder.state, events[0]),
            events.drop_first(),
        );
    }
}

/// A run keeps the configuration.
pub proof fn lemma_run_keeps_configuration(feeder: FeederView, events: Seq<EventView>)
    ensures
        feeder.run(events) == (FeederView { state: feeder.run(events).state, ..feeder }),
    decreases events.len(),
{
    if events.len() > 0 {
        lemma_run_keeps_configuration(feeder.after(events[0]), events.drop_first());
    }
}

/// The events of `n` connection attempts that fail.
pub open spec fn failed_connects(n: nat) -> Seq<EventView> {
    repeat(EventView::ConnectFailed, n)
}

/// The events of one outage: a store attempt fails for want of a
/// connection, `failures` attempts to reconnect fail, the next one succeeds.
pub open spec fn outage(failures: nat) -> Seq<EventView> {
    seq![EventView::StoreFailed(FailureClass::Transient)] + failed_connects(failures)
        + seq![EventView::ConnectSucceeded]
}

/// The events of one outage after the other; `failures` gives, for each,
/// the number of failed attempts to reconnect.
pub open spec fn outages(failures: Seq<nat>) -> Seq<EventView>
    decreases failures.len(),
{
    if failures.len() == 0 {
        Seq::empty()
    } else {
        outage(failures[0]) + outages(failures.drop_first())
    }
}

/// The sum of the numbers of `ns`.
pub open spec fn sum(ns: Seq<nat>) -> nat
    decreases ns.len(),
{
    if ns.len() == 0 {
        0
    } else {
        ns[0] + sum(ns.drop_first())
    }
}

/// Whether the last connection attempt failed, in a state that awaits one.
spec fn backing_off(state: State) -> bool {
    match state {
        State::Connecting { backoff } => backoff,
        State::Reconnecting { backoff, .. } => backoff,
        _ => false,
    }
}

/// `state` with its backoff flag set to `backoff`.
spec fn with_backoff(state: State, backoff: bool) -> State {
    match state {
        State::Connecting { .. } => State::Connecting { backoff },
        State::Reconnecting { line, .. } => State::Reconnecting { line, backoff },
        _ => state,
    }
}

/// While the writer awaits a connection, failed attempts change nothing but
/// the delay: a record in flight is kept, and every attempt after a failed
/// one is preceded by the configured delay.
proof fn lemma_failed_connects(feeder: FeederView, n: nat)
    requires
        feeder.state is Connecting || feeder.state is Reconnecting,
    ensures
        feeder.run(failed_connects(n)) == (FeederView {
            state: with_backoff(feeder.state, backing_off(feeder.state) || n > 0),
            ..feeder
        }),
        feeder.tally(failed_connects(n)) == (Tally {
            connects: n,
            delays: repeat(
                feeder.reconnect_delay,
                if n > 0 && !backing_off(feeder.state) {
                    (n - 1) as nat
                } else {
                    n
                },
            ),
            ..Tally::nothing()
        }),
    decreases n,
{
    let events = failed_connects(n);
    if n > 0 {
        assert(events.drop_first() =~= failed_connects((n - 1) as nat));
        lemma_failed_connects(feeder.after(events[0]), (n - 1) as nat);
    }
}

/// The first connection. A new writer attempts to connect until an attempt
/// succeeds, however many fail before, and is then connected and idle. It
/// sleeps the configured delay before every attempt but the first.
pub proof fn lemma_first_connection(feeder: FeederView, failures: nat)
    requires
        feeder.state == (State::Connecting { backoff: false }),
    ensures
        feeder.run(failed_connects(failures).push(EventView::ConnectSucceeded)) == (FeederView {
            state: State::Idle,
            ..feeder
        }),
        feeder.tally(failed_connects(failures).push(EventView::ConnectSucceeded)) == (Tally {
            connects: failures + 1,
            delays: repeat(feeder.reconnect_delay, failures),
            ..Tally::nothing()
        }),
{
    let failed = failed_connects(failures);
    let succeeded = seq![EventView::ConnectSucceeded];
    lemma_failed_connects(feeder, failures);
    let waiting = feeder.run(failed);
    lemma_one_event(waiting, succeeded[0]);
    lemma_run_splits(feeder, failed, succeeded);
    assert(failed + succeeded =~= failed.push(EventView::ConnectSucceeded));
}

/// One outage. The writer reconnects until the connection stands and then
/// wants the same record stored again. With `failures` failed attempts it
/// makes `failures + 1` attempts to connect, and sleeps the configured
/// delay before each but the first.
pub proof fn lemma_outage(feeder: FeederView, line: Seq<char>, failures: nat)
    requires
        feeder.state == (State::Storing { line }),
    ensures
        feeder.run(outage(failures)) == feeder,
        feeder.tally(outage(failures)) == (Tally {
            attempts: seq![line],
            reconnects: 1,
            connects: failures + 1,
            delays: repeat(feeder.reconnect_delay, failures),
            ..Tally::nothing()
        }),
{
    let lost = seq![EventView::StoreFailed(FailureClass::Transient)];
    let failed = failed_connects(failures);
    let back = seq![EventView::ConnectSucceeded];
    let reconnecting = feeder.after(lost[0]);
    lemma_one_event(feeder, lost[0]);
    lemma_failed_connects(reconnecting, failures);
    let waiting = reconnecting.run(failed);
    lemma_one_event(waiting, back[0]);
    lemma_run_splits(feeder, lost, failed);
    lemma_run_splits(feeder, lost + failed, back);
}

/// Outage after outage. However often the connection is lost under a
/// record, the writer ends up connected and wanting that same record
/// stored: it has attempted the record once per outage, and reconnected
/// once per outage.
pub proof fn lemma_outages(feeder: FeederView, line: Seq<char>, failures: Seq<nat>)
    requires
        feeder.state == (State::Storing { line }),
    ensures
        feeder.run(outages(failures)) == feeder,
        feeder.tally(outages(failures)) == (Tally {
            attempts: repeat(line, failures.len()),
            reconnects: failures.len(),
            connects: failures.len() + sum(failures),
            delays: repeat(feeder.reconnect_delay, sum(failures)),
            ..Tally::nothing()
        }),
    decreases failures.len(),
{
    if failures.len() > 0 {
        let rest = failures.drop_first();
        lemma_outage(feeder, line, failures[0]);
        lemma_outages(feeder, line, rest);
        lemma_run_splits(feeder, outage(failures[0]), outages(rest));
    }
}

/// Transient failures are retried until the record arrives.
///
/// Take a record whose store attempt is outstanding, let the attempt fail
/// for want of a connection `failures.len()` times, and then succeed. The
/// writer ends up connected and idle. The record was attempted once more
/// than it failed, never another record in between, and was delivered
/// exactly once. The writer reconnected exactly once per failure; an attempt
/// to reconnect that followed a failed one was preceded by the configured
/// delay, and no other attempt was.
pub proof fn lemma_transient_failures_are_retried(
    feeder: FeederView,
    line: Seq<char>,
    failures: Seq<nat>,
)
    requires
        feeder.state == (State::Storing { line }),
    ensures
        feeder.run(outages(failures).push(EventView::StoreSucceeded)) == (FeederView {
            state: State::Idle,
            ..feeder
        }),
        feeder.tally(outages(failures).push(EventView::StoreSucceeded)) == (Tally {
            attempts: repeat(line, failures.len() + 1),
            delivered: seq![line],
            reconnects: failures.len(),
            connects: failures.len() + sum(failures),
            delays: repeat(feeder.reconnect_delay, sum(failures)),
            ..Tally::nothing()
        }),
{
    let stored = seq![EventView::StoreSucceeded];
    lemma_outages(feeder, line, failures);
    lemma_run_splits(feeder, outages(failures), stored);
    assert(outages(failures) + stored =~= outages(failures).push(EventView::StoreSucceeded));
    lemma_one_event(feeder, stored[0]);
}

/// What a record meets between the hand-off buffer and the store.
pub struct Fate {
    /// One entry for every time the connection is lost under the record:
    /// the number of attempts to reconnect that fail before one succeeds.
    pub failures: Seq<nat>,
    /// Whether the store, in the end, rejects the record instead of
    /// accepting it.
    pub rejected: bool,
}

impl Fate {
    /// The store accepts the record at the first attempt.
    pub open spec fn smooth() -> Fate {
        Fate { failures: Seq::empty(), rejected: false }
    }

    /// The answer to the last store attempt.
    pub open spec fn verdict(self) -> EventView {
        if self.rejected {
            EventView::StoreFailed(FailureClass::Fatal)
        } else {
            EventView::StoreSucceeded
        }
    }
}

/// The events of a record's passage: it is received, its store attempts
/// fail for want of a connection as its fate has it, and the last attempt is
/// answered for good.
pub open spec fn passage(line: Seq<char>, fate: Fate) -> Seq<EventView> {
    seq![EventView::Received(Message::Line(line))] + outages(fate.failures) + seq![
        fate.verdict(),
    ]
}

/// What the writer does over a record's passage.
pub open spec fn passage_tally(feeder: FeederView, line: Seq<char>, fate: Fate) -> Tally {
    Tally {
        accepted: seq![line],
        attempts: repeat(line, fate.failures.len() + 1),
        delivered: one_if(!fate.rejected, line),
        abandoned: one_if(fate.rejected, line),
        reconnects: fate.failures.len(),
        connects: fate.failures.len() + sum(fate.failures),
        delays: repeat(feeder.reconnect_delay, sum(fate.failures)),
    }
}

/// The passage of one record. An idle writer takes the record on, attempts
/// it once and once more after every outage, and is idle again when the
/// store has answered for good: the record is then delivered, once, or
/// abandoned, never both.
pub proof fn lemma_passage(feeder: FeederView, line: Seq<char>, fate: Fate)
    requires
        feeder.state == State::Idle,
    ensures
        feeder.run(passage(line, fate)) == feeder,
        feeder.tally(passage(line, fate)) == passage_tally(feeder, line, fate),
{
    let received = seq![EventView::Received(Message::Line(line))];
    let troubled = outages(fate.failures);
    let answered = seq![fate.verdict()];
    let storing = feeder.after(received[0]);
    lemma_one_event(feeder, received[0]);
    lemma_outages(storing, line, fate.failures);
    lemma_one_event(storing, answered[0]);
    lemma_run_splits(feeder, received, troubled);
    lemma_run_splits(feeder, received + troubled, answered);
}

/// A fatal failure gives the record up. The record is not attempted again
/// and no reconnection is made for it: the writer is idle and asks for the
/// next message, and the record it receives next is the next it wants
/// stored.
pub proof fn lemma_fatal_failure_abandons(feeder: FeederView, line: Seq<char>, next: Seq<char>)
    requires
        feeder.state == (State::Storing { line }),
    ensures
        feeder.after(EventView::StoreFailed(FailureClass::Fatal)).directive()
            == DirectiveView::Receive,
        feeder.run(
            seq![
                EventView::StoreFailed(FailureClass::Fatal),
                EventView::Received(Message::Line(next)),
            ],
        ) == (FeederView { state: State::Storing { line: next }, ..feeder }),
        feeder.tally(
            seq![
                EventView::StoreFailed(FailureClass::Fatal),
                EventView::Received(Message::Line(next)),
            ],
        ) == (Tally {
            accepted: seq![next],
            attempts: seq![line],
            abandoned: seq![line],
            ..Tally::nothing()
        }),
{
    let failed = seq![EventView::StoreFailed(FailureClass::Fatal)];
    let received = seq![EventView::Received(Message::Line(next))];
    let idle = feeder.after(failed[0]);
    lemma_one_event(feeder, failed[0]);
    lemma_one_event(idle, received[0]);
    lemma_run_splits(feeder, failed, received);
    assert(failed + received =~= seq![
        EventView::StoreFailed(FailureClass::Fatal),
        EventView::Received(Message::Line(next)),
    ]);
}

/// The events of a stream of records, each with its fate.
pub open spec fn stream(lines: Seq<Seq<char>>, fates: Seq<Fate>) -> Seq<EventView>
    decreases lines.len(),
{
    if lines.len() == 0 || fates.len() == 0 {
        Seq::empty()
    } else {
        passage(lines[0], fates[0]) + stream(lines.drop_first(), fates.drop_first())
    }
}

/// What the writer does over a stream of records.
pub open spec fn stream_tally(feeder: FeederView, lines: Seq<Seq<char>>, fates: Seq<Fate>) -> Tally
    decreases lines.len(),
{
    if lines.len() == 0 || fates.len() == 0 {
        Tally::nothing()
    } else {
        passage_tally(feeder, lines[0], fates[0]).followed_by(
            stream_tally(feeder, lines.drop_first(), fates.drop_first()),
        )
    }
}

/// A stream of records passes one record at a time, in the order received:
/// the writer is idle between any two, and what it does is what it does for
/// each record, one after the other.
pub proof fn lemma_stream(feeder: FeederView, lines: Seq<Seq<char>>, fates: Seq<Fate>)
    requires
        feeder.state == State::Idle,
        lines.len() == fates.len(),
    ensures
        feeder.run(stream(lines, fates)) == feeder,
        feeder.tally(stream(lines, fates)) == stream_tally(feeder, lines, fates),
    decreases lines.len(),
{
    if lines.len() > 0 {
        lemma_passage(feeder, lines[0], fates[0]);
        lemma_stream(feeder, lines.drop_first(), fates.drop_first());
        lemma_run_splits(
            feeder,
            passage(lines[0], fates[0]),
            stream(lines.drop_first(), fates.drop_first()),
        );
    }
}

/// Over a stream, every record is taken on, in order, and attempted once
/// and once more for every outage; every record is delivered or abandoned.
pub proof fn lemma_stream_accounts(feeder: FeederView, lines: Seq<Seq<char>>, fates: Seq<Fate>)
    requires
        lines.len() == fates.len(),
    ensures
        stream_tally(feeder, lines, fates).accepted == lines,
        stream_tally(feeder, lines, fates).attempts.len() == lines.len() + stream_tally(
            feeder,
            lines,
            fates,
        ).reconnects,
        stream_tally(feeder, lines, fates).delivered.len() + stream_tally(
            feeder,
            lines,
            fates,
        ).abandoned.len() == lines.len(),
        (forall|i: int| 0 <= i < fates.len() ==> !(#[trigger] fates[i]).rejected) ==> {
            &&& stream_tally(feeder, lines, fates).delivered == lines
            &&& stream_tally(feeder, lines, fates).abandoned == Seq::<Seq<char>>::empty()
        },
        (forall|i: int| 0 <= i < fates.len() ==> (#[trigger] fates[i]).failures.len() == 0) ==> {
            &&& stream_tally(feeder, lines, fates).attempts == lines
            &&& stream_tally(feeder, lines, fates).reconnects == 0
            &&& stream_tally(feeder, lines, fates).connects == 0
        },
    decreases lines.len(),
{
    if lines.len() > 0 {
        let rest = lines.drop_first();
        let later = fates.drop_first();
        lemma_stream_accounts(feeder, rest, later);
    }
}

/// A stopped writer stays stopped and does nothing more, whatever is
/// reported to it.
pub proof fn lemma_stopped_for_good(feeder: FeederView, events: Seq<EventView>)
    requires
        feeder.state == State::Stopped,
    ensures
        feeder.run(events) == feeder,
        feeder.tally(events) == Tally::nothing(),
    decreases events.len(),
{
    if events.len() > 0 {
        lemma_stopped_for_good(feeder.after(events[0]), events.drop_first());
    }
}

/// Nothing is lost while the store answers every attempt with success: the
/// records the writer receives are the records it attempts and the records
/// it delivers, each once and in the order received, without a reconnection.
pub proof fn lemma_no_loss(feeder: FeederView, lines: Seq<Seq<char>>)
    requires
        feeder.state == State::Idle,
    ensures
        feeder.run(stream(lines, repeat(Fate::smooth(), lines.len()))) == feeder,
        feeder.tally(stream(lines, repeat(Fate::smooth(), lines.len()))) == (Tally {
            accepted: lines,
            attempts: lines,
            delivered: lines,
            ..Tally::nothing()
        }),
{
    let fates = repeat(Fate::smooth(), lines.len());
    lemma_stream(feeder, lines, fates);
    lemma_stream_accounts(feeder, lines, fates);
    lemma_stream_delays(feeder, lines, fates);
}

/// Over a stream without outages nothing is slept.
proof fn lemma_stream_delays(feeder: FeederView, lines: Seq<Seq<char>>, fates: Seq<Fate>)
    requires
        lines.len() == fates.len(),
        forall|i: int| 0 <= i < fates.len() ==> (#[trigger] fates[i]).failures.len() == 0,
    ensures
        stream_tally(feeder, lines, fates).delays == Seq::<u64>::empty(),
    decreases lines.len(),
{
    if lines.len() > 0 {
        let later = fates.drop_first();
        lemma_stream_delays(feeder, lines.drop_first(), later);
    }
}

/// The lines of `lines`, each as the record that carries it.
pub open spec fn as_records(lines: Seq<Seq<char>>) -> Seq<Message> {
    Seq::new(lines.len(), |i: int| Message::Line(lines[i]))
}

/// Nothing is lost between producer and store while the consumer keeps pace
/// and the store answers every attempt with success. Let the producer send
/// the records of `lines` through a buffer of any capacity, let no send find
/// the buffer full, and let the consumer have taken all that was sent: then
/// the consumer has received exactly those records, in the order sent, and
/// the writer, given them in that order, delivers each once, in that order.
pub proof fn lemma_no_loss_from_producer_to_store(
    capacity: nat,
    ops: Seq<Op>,
    lines: Seq<Seq<char>>,
    feeder: FeederView,
)
    requires
        Handoff::open(capacity).keeps_pace(ops),
        Handoff::open(capacity).run(ops).pending.len() == 0,
        sent(ops) == as_records(lines),
        feeder.state == State::Idle,
    ensures
        Handoff::open(capacity).run(ops).discarded.len() == 0,
        Handoff::open(capacity).run(ops).received == as_records(lines),
        feeder.tally(stream(lines, repeat(Fate::smooth(), lines.len()))).delivered == lines,
        feeder.tally(stream(lines, repeat(Fate::smooth(), lines.len()))).attempts == lines,
{
    let start = Handoff::open(capacity);
    lemma_keeping_pace_loses_nothing(start, ops);
    lemma_no_loss(feeder, lines);

}

/// Graceful shutdown. When the end of input, or the closing of the hand-off
/// buffer, follows a stream of records, the writer has by then taken on
/// every record of the stream, in order, and delivered or abandoned each;
/// it then stops, and does nothing for whatever is reported afterwards.
pub proof fn lemma_graceful_shutdown(
    feeder: FeederView,
    lines: Seq<Seq<char>>,
    fates: Seq<Fate>,
    stop: EventView,
    rest: Seq<EventView>,
)
    requires
        feeder.state == State::Idle,
        lines.len() == fates.len(),
        stop == EventView::Received(Message::Quit) || stop == EventView::Closed,
    ensures
        feeder.run(stream(lines, fates).push(stop) + rest) == (FeederView {
            state: State::Stopped,
            ..feeder
        }),
        feeder.run(stream(lines, fates).push(stop) + rest).directive() == DirectiveView::Stop,
        feeder.tally(stream(lines, fates).push(stop) + rest) == stream_tally(feeder, lines, fates),
        stream_tally(feeder, lines, fates).accepted == lines,
        stream_tally(feeder, lines, fates).delivered.len() + stream_tally(
            feeder,
            lines,
            fates,
        ).abandoned.len() == lines.len(),
{
    let records = stream(lines, fates);
    let stopping = seq![stop];
    lemma_stream(feeder, lines, fates);
    lemma_stream_accounts(feeder, lines, fates);
    lemma_one_event(feeder, stop);
    let stopped = feeder.after(stop);
    lemma_stopped_for_good(stopped, rest);
    lemma_run_splits(feeder, records, stopping);
    lemma_run_splits(feeder, records + stopping, rest);
    assert(records + stopping =~= records.push(stop));
}

} // verus!
