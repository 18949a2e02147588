//! The messages handed from the producer to the writer.

use vstd::prelude::*;

verus! {

/// A message travelling through the hand-off buffer: a record to store, or
/// the signal that the input is exhausted.
#[derive(Debug, PartialEq, Eq)]
pub enum FeederMessage {
    /// One record, a line of text.
    Line(String),
    /// End of input: the writer stops once it reads this.
    Quit,
}

/// The mathematical value of a [`FeederMessage`].
pub enum Message {
    Line(Seq<char>),
    Quit,
}

impl View for FeederMessage {
    type V = Message;

    open spec fn view(&self) -> Message {
        match self {
            FeederMessage::Line(text) => Message::Line(text@),
            FeederMessage::Quit => Message::Quit,
        }
    }
}

impl Clone for FeederMessage {
    fn clone(&self) -> (copy: FeederMessage)
        ensures
            copy@ == self@,
    {
        match self {
            FeederMessage::Line(text) => FeederMessage::Line(text.clone()),
            FeederMessage::Quit => FeederMessage::Quit,
        }
    }
}

/// The peer side of the hand-off buffer is gone.
#[derive(Debug, Clone, Copy, PartialEq, Eq, Structural)]
pub struct ChannelClosed;

impl FeederMessage {
    /// Wraps a record for the hand-off buffer.
    pub fn line(text: &str) -> (msg: FeederMessage)
        ensures
            msg@ == Message::Line(text@),
    {
        FeederMessage::Line(text.to_owned())
    }
}

} // verus!
