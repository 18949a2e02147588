//! The writer's state machine.
//!
//! A [`RedisFeeder`] decides; it never touches the network. After every call
//! its [`RedisFeeder::directive`] says what the driver has to do next, and the
//! driver reports the result of that work through [`RedisFeeder::handle`]:
//!
//! ```text
//! state         event                     next state    notice
//! ------------  ------------------------  ------------  --------------
//! Connecting    ConnectSucceeded          Idle          Connected
//! Connecting    ConnectFailed             Connecting    ConnectFailed
//! Idle          Received(Line)            Storing       Accepted
//! Idle          Received(Quit), Closed    Stopped       ShuttingDown
//! Storing       StoreSucceeded            Idle          Delivered
//! Storing       StoreFailed(Transient)    Reconnecting  ConnectionLost
//! Storing       StoreFailed(Fatal)        Idle          Abandoned
//! Reconnecting  ConnectSucceeded          Storing       Reconnected
//! Reconnecting  ConnectFailed             Reconnecting  ConnectFailed
//! any other pair                          unchanged     Ignored
//! ```
//!
//! The record in flight goes along from `Storing` to `Reconnecting` and
//! back, so that the store attempt after a reconnection is for the same
//! record. A connection attempt that follows a failed one is preceded by the
//! configured delay; there is no limit to the number of attempts.

use vstd::prelude::*;
use crate::message::{FeederMessage, Message};

verus! {

/// Which store operation receives a record.
#[derive(Debug, Clone, Copy, PartialEq, Eq, Structural)]
pub enum StoreCommand {
    /// Append the record to the end of the list at the key.
    Rpush,
}

/// How a failed store attempt is to be treated.
#[derive(Debug, Clone, Copy, PartialEq, Eq, Structural)]
pub enum FailureClass {
    /// The connection is at fault: reconnect and try the same record again.
    Transient,
    /// The store rejected the record: give the record up.
    Fatal,
}

/// What the driver reports to the writer.
#[derive(Debug, PartialEq, Eq)]
pub enum Event {
    /// The connection attempt produced a live connection.
    ConnectSucceeded,
    /// The connection attempt failed or timed out.
    ConnectFailed,
    /// The hand-off buffer yielded its oldest message.
    Received(FeederMessage),
    /// The hand-off buffer is empty and its sending side is gone.
    Closed,
    /// The store accepted the record.
    StoreSucceeded,
    /// The store attempt failed.
    StoreFailed(FailureClass),
}

/// The mathematical value of an [`Event`].
pub enum EventView {
    ConnectSucceeded,
    ConnectFailed,
    Received(Message),
    Closed,
    StoreSucceeded,
    StoreFailed(FailureClass),
}

impl View for Event {
    type V = EventView;

    open spec fn view(&self) -> EventView {
        match self {
            Event::ConnectSucceeded => EventView::ConnectSucceeded,
            Event::ConnectFailed => EventView::ConnectFailed,
            Event::Received(msg) => EventView::Received(msg@),
            Event::Closed => EventView::Closed,
            Event::StoreSucceeded => EventView::StoreSucceeded,
            Event::StoreFailed(class) => EventView::StoreFailed(*class),
        }
    }
}

impl Clone for Event {
    fn clone(&self) -> (copy: Event)
        ensures
            copy@ == self@,
    {
        match self {
            Event::ConnectSucceeded => Event::ConnectSucceeded,
            Event::ConnectFailed => Event::ConnectFailed,
            Event::Received(msg) => Event::Received(msg.clone()),
            Event::Closed => Event::Closed,
            Event::StoreSucceeded => Event::StoreSucceeded,
            Event::StoreFailed(class) => Event::StoreFailed(*class),
        }
    }
}

/// What the driver has to do next.
#[derive(Debug, PartialEq, Eq)]
pub enum Directive {
    /// Try to connect now, giving the attempt at most `timeout` seconds.
    Connect { timeout: u64 },
    /// Sleep `delay` seconds, then try to connect, giving the attempt at most
    /// `timeout` seconds.
    Retry { delay: u64, timeout: u64 },
    /// Take the next message from the hand-off buffer.
    Receive,
    /// Run `command` with `value` on `key` over the live connection.
    Store { command: StoreCommand, key: String, value: String },
    /// Leave the loop: the writer has shut down.
    Stop,
}

/// The mathematical value of a [`Directive`].
pub enum DirectiveView {
    Connect { timeout: u64 },
    Retry { delay: u64, timeout: u64 },
    Receive,
    Store { command: StoreCommand, key: Seq<char>, value: Seq<char> },
    Stop,
}

impl View for Directive {
    type V = DirectiveView;

    open spec fn view(&self) -> DirectiveView {
        match self {
            Directive::Connect { timeout } => DirectiveView::Connect { timeout: *timeout },
            Directive::Retry { delay, timeout } => DirectiveView::Retry {
                delay: *delay,
                timeout: *timeout,
            },
            Directive::Receive => DirectiveView::Receive,
            Directive::Store { command, key, value } => DirectiveView::Store {
                command: *command,
                key: key@,
                value: value@,
            },
            Directive::Stop => DirectiveView::Stop,
        }
    }
}

impl Clone for Directive {
    fn clone(&self) -> (copy: Directive)
        ensures
            copy@ == self@,
    {
        match self {
            Directive::Connect { timeout } => Directive::Connect { timeout: *timeout },
            Directive::Retry { delay, timeout } => Directive::Retry {
                delay: *delay,
                timeout: *timeout,
            },
            Directive::Receive => Directive::Receive,
            Directive::Store { command, key, value } => Directive::Store {
                command: *command,
                key: key.clone(),
                value: value.clone(),
            },
            Directive::Stop => Directive::Stop,
        }
    }
}

/// What a step of the writer amounts to; the driver logs it.
#[derive(Debug, Clone, Copy, PartialEq, Eq, Structural)]
pub enum Notice {
    /// The first connection stands.
    Connected,
    /// A connection attempt failed; another follows after the delay.
    ConnectFailed,
    /// A record was taken on and goes to the store.
    Accepted,
    /// The store accepted the record.
    Delivered,
    /// A store attempt failed for want of a connection; reconnecting.
    ConnectionLost,
    /// The connection stands again; the record is tried once more.
    Reconnected,
    /// The store rejected the record; it is given up.
    Abandoned,
    /// The writer has shut down.
    ShuttingDown,
    /// The event does not answer the outstanding directive; nothing changed.
    Ignored,
}

/// Where the writer stands.
pub enum State {
    /// No connection yet. `backoff`: the last attempt failed.
    Connecting { backoff: bool },
    /// Connected, nothing in flight.
    Idle,
    /// Connected, a store attempt for `line` is outstanding.
    Storing { line: Seq<char> },
    /// The connection was lost while storing `line`, which is kept for the
    /// retry. `backoff`: the last attempt to reconnect failed.
    Reconnecting { line: Seq<char>, backoff: bool },
    /// Shut down for good.
    Stopped,
}

impl State {
    /// The state that follows `self` when `event` is reported.
    pub open spec fn next(self, event: EventView) -> State {
        match (self, event) {
            (State::Connecting { .. }, EventView::ConnectSucceeded) => State::Idle,
            (State::Connecting { .. }, EventView::ConnectFailed) => State::Connecting {
                backoff: true,
            },
            (State::Idle, EventView::Received(Message::Line(line))) => State::Storing { line },
            (State::Idle, EventView::Received(Message::Quit)) => State::Stopped,
            (State::Idle, EventView::Closed) => State::Stopped,
            (State::Storing { .. }, EventView::StoreSucceeded) => State::Idle,
            (
                State::Storing { line },
                EventView::StoreFailed(FailureClass::Transient),
            ) => State::Reconnecting { line, backoff: false },
            (State::Storing { .. }, EventView::StoreFailed(FailureClass::Fatal)) => State::Idle,
            (State::Reconnecting { line, .. }, EventView::ConnectSucceeded) => State::Storing {
                line,
            },
            (State::Reconnecting { line, .. }, EventView::ConnectFailed) => State::Reconnecting {
                line,
                backoff: true,
            },
            _ => self,
        }
    }

    /// What the step from `self` on `event` amounts to.
    pub open spec fn notice(self, event: EventView) -> Notice {
        match (self, event) {
            (State::Connecting { .. }, EventView::ConnectSucceeded) => Notice::Connected,
            (State::Connecting { .. }, EventView::ConnectFailed) => Notice::ConnectFailed,
            (State::Idle, EventView::Received(Message::Line(_))) => Notice::Accepted,
            (State::Idle, EventView::Received(Message::Quit)) => Notice::ShuttingDown,
            (State::Idle, EventView::Closed) => Notice::ShuttingDown,
            (State::Storing { .. }, EventView::StoreSucceeded) => Notice::Delivered,
            (
                State::Storing { .. },
                EventView::StoreFailed(FailureClass::Transient),
            ) => Notice::ConnectionLost,
            (State::Storing { .. }, EventView::StoreFailed(FailureClass::Fatal)) => {
                Notice::Abandoned
            },
            (State::Reconnecting { .. }, EventView::ConnectSucceeded) => Notice::Reconnected,
            (State::Reconnecting { .. }, EventView::ConnectFailed) => Notice::ConnectFailed,
            _ => Notice::Ignored,
        }
    }

    /// A live connection is held: the only states in which the store is
    /// addressed.
    pub open spec fn connected(self) -> bool {
        self is Idle || self is Storing
    }
}

/// The mathematical value of a [`RedisFeeder`]: its configuration, fixed for
/// its lifetime, and its state.
pub struct FeederView {
    /// Seconds granted to one connection attempt.
    pub timeout: u64,
    /// The key of the list that receives the records.
    pub key: Seq<char>,
    /// The store operation that receives the records.
    pub store_command: StoreCommand,
    /// Seconds to sleep after a failed connection attempt.
    pub reconnect_delay: u64,
    pub state: State,
}

impl FeederView {
    /// The work that is outstanding in this state.
    pub open spec fn directive(self) -> DirectiveView {
        match self.state {
            State::Connecting { backoff } | State::Reconnecting { backoff, .. } => if backoff {
                DirectiveView::Retry { delay: self.reconnect_delay, timeout: self.timeout }
            } else {
                DirectiveView::Connect { timeout: self.timeout }
            },
            State::Idle => DirectiveView::Receive,
            State::Storing { line } => DirectiveView::Store {
                command: self.store_command,
                key: self.key,
                value: line,
            },
            State::Stopped => DirectiveView::Stop,
        }
    }

    /// The writer after `event`: the state moves on, the configuration stays.
    pub open spec fn after(self, event: EventView) -> FeederView {
        FeederView { state: self.state.next(event), ..self }
    }
}

#[derive(Debug, Clone, Copy)]
enum Stage {
    Connecting,
    Idle,
    Storing,
    Reconnecting,
    Stopped,
}

/// The writer: owns the connection state and decides, for every outcome of a
/// connection or store attempt, what is done next.
#[derive(Debug)]
pub struct RedisFeeder {
    timeout: u64,
    key: String,
    store_command: StoreCommand,
    reconnect_delay: u64,
    stage: Stage,
    /// The last connection attempt failed.
    backoff: bool,
    /// The record in flight; meaningful while storing or reconnecting.
    line: String,
}

impl View for RedisFeeder {
    type V = FeederView;

    closed spec fn view(&self) -> FeederView {
        FeederView {
            timeout: self.timeout,
            key: self.key@,
            store_command: self.store_command,
            reconnect_delay: self.reconnect_delay,
            state: match self.stage {
                Stage::Connecting => State::Connecting { backoff: self.backoff },
                Stage::Idle => State::Idle,
                Stage::Storing => State::Storing { line: self.line@ },
                Stage::Reconnecting => State::Reconnecting {
                    line: self.line@,
                    backoff: self.backoff,
                },
                Stage::Stopped => State::Stopped,
            },
        }
    }
}

impl RedisFeeder {
    /// A writer for the list at `key`, about to make its first connection
    /// attempt. `timeout` and `reconnect_delay` are in seconds.
    pub fn new(
        timeout: u64,
        key: String,
        store_command: StoreCommand,
        reconnect_delay: u64,
    ) -> (feeder: RedisFeeder)
        ensures
            feeder@ == (FeederView {
                timeout,
                key: key@,
                store_command,
                reconnect_delay,
                state: State::Connecting { backoff: false },
            }),
    {
        RedisFeeder {
            timeout,
            key,
            store_command,
            reconnect_delay,
            stage: Stage::Connecting,
            backoff: false,
            line: String::new(),
        }
    }

    /// Hands `line` to the writer, as if the hand-off buffer had yielded it.
    /// An idle writer takes it on and wants it stored; in any other state the
    /// record is refused and nothing changes.
    pub fn feed(&mut self, line: &str) -> (notice: Notice)
        ensures
            final(self)@ == old(self)@.after(EventView::Received(Message::Line(line@))),
            notice == old(self)@.state.notice(EventView::Received(Message::Line(line@))),
    {
        self.handle(Event::Received(FeederMessage::line(line)))
    }

    /// Takes in what the driver reports and moves to the next state.
    ///
    /// An event that does not answer the outstanding directive changes
    /// nothing and is acknowledged with [`Notice::Ignored`].
    pub fn handle(&mut self, event: Event) -> (notice: Notice)
        ensures
            final(self)@ == old(self)@.after(event@),
            notice == old(self)@.state.notice(event@),
    {
        match self.stage {
            Stage::Connecting => match event {
                Event::ConnectSucceeded => {
                    self.stage = Stage::Idle;
                    Notice::Connected
                },
                Event::ConnectFailed => {
                    self.backoff = true;
                    Notice::ConnectFailed
                },
                _ => Notice::Ignored,
            },
            Stage::Idle => match event {
                Event::Received(FeederMessage::Line(line)) => {
                    self.line = line;
                    self.stage = Stage::Storing;
                    Notice::Accepted
                },
                Event::Received(FeederMessage::Quit) | Event::Closed => {
                    self.stage = Stage::Stopped;
                    Notice::ShuttingDown
                },
                _ => Notice::Ignored,
            },
            Stage::Storing => match event {
                Event::StoreSucceeded => {
                    self.stage = Stage::Idle;
                    Notice::Delivered
                },
                Event::StoreFailed(FailureClass::Transient) => {
                    self.stage = Stage::Reconnecting;
                    self.backoff = false;
                    Notice::ConnectionLost
                },
                Event::StoreFailed(FailureClass::Fatal) => {
                    self.stage = Stage::Idle;
                    Notice::Abandoned
                },
                _ => Notice::Ignored,
            },
            Stage::Reconnecting => match event {
                Event::ConnectSucceeded => {
                    self.stage = Stage::Storing;
                    Notice::Reconnected
                },
                Event::ConnectFailed => {
                    self.backoff = true;
                    Notice::ConnectFailed
                },
                _ => Notice::Ignored,
            },
            Stage::Stopped => Notice::Ignored,
        }
    }

    /// Whether the writer holds a live connection: it is idle or has a store
    /// attempt outstanding.
    pub fn is_connected(&self) -> (connected: bool)
        ensures
            connected == self@.state.connected(),
    {
        match self.stage {
            Stage::Idle | Stage::Storing => true,
            _ => false,
        }
    }

    /// The work that is outstanding: what the driver does before it next
    /// calls [`RedisFeeder::handle`].
    pub fn directive(&self) -> (directive: Directive)
        ensures
            directive@ == self@.directive(),
    {
        match self.stage {
            Stage::Connecting | Stage::Reconnecting => if self.backoff {
                Directive::Retry { delay: self.reconnect_delay, timeout: self.timeout }
            } else {
                Directive::Connect { timeout: self.timeout }
            },
            Stage::Idle => Directive::Receive,
            Stage::Storing => Directive::Store {
                command: self.store_command,
                key: self.key.clone(),
                value: self.line.clone(),
            },
            Stage::Stopped => Directive::Stop,
        }
    }
}

} // verus!
