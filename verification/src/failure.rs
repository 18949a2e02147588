//! Telling the failures that a reconnection cures from those it does not.

use vstd::prelude::*;
use crate::feeder::{Event, EventView, FailureClass};

verus! {

/// The error type of the store client, `redis::RedisError`. Its inside is
/// not looked into here; it is questioned through the four methods below.
#[verifier::external_type_specification]
#[verifier::external_body]
pub struct ExRedisError(redis::RedisError);

/// What `redis::RedisError::is_connection_dropped` answers for `err`.
pub uninterp spec fn connection_dropped(err: redis::RedisError) -> bool;

/// What `redis::RedisError::is_io_error` answers for `err`.
pub uninterp spec fn io_failure(err: redis::RedisError) -> bool;

/// What `redis::RedisError::is_timeout` answers for `err`.
pub uninterp spec fn timed_out(err: redis::RedisError) -> bool;

/// `redis::RedisError::is_connection_dropped` inspects the error and nothing
/// else, so its answer is a function of the error: [`connection_dropped`].
pub assume_specification[ redis::RedisError::is_connection_dropped ](
    err: &redis::RedisError,
) -> (answer: bool)
    ensures
        answer == connection_dropped(*err),
;

/// `redis::RedisError::is_io_error` compares the error's kind with the I/O
/// kind, so its answer is a function of the error: [`io_failure`].
pub assume_specification[ redis::RedisError::is_io_error ](err: &redis::RedisError) -> (answer:
    bool)
    ensures
        answer == io_failure(*err),
;

/// `redis::RedisError::is_timeout` looks at the kind of the I/O error inside
/// and at nothing else, so its answer is a function of the error:
/// [`timed_out`]. (With which kind a platform reports a timeout is settled
/// before the error exists.)
pub assume_specification[ redis::RedisError::is_timeout ](err: &redis::RedisError) -> (answer:
    bool)
    ensures
        answer == timed_out(*err),
;

/// `redis::RedisError::is_connection_refusal` answers differently on
/// different platforms for one kind of error, so its answer has no name.
/// It says yes only of an error that holds a `std::io::Error`, and the
/// client builds such an error with the I/O kind alone (its
/// `From<std::io::Error>`): then `is_io_error` says yes as well.
pub assume_specification[ redis::RedisError::is_connection_refusal ](
    err: &redis::RedisError,
) -> (answer: bool)
    ensures
        answer ==> io_failure(*err),
;

/// The signs by which the store client marks a failure as one of the
/// connection.
#[derive(Debug, Clone, Copy, PartialEq, Eq, Structural)]
pub struct FailureSigns {
    pub connection_dropped: bool,
    pub connection_refused: bool,
    pub io_error: bool,
    pub timed_out: bool,
}

impl FailureSigns {
    /// Transient if any sign is present, fatal if none is.
    pub open spec fn class(self) -> FailureClass {
        if self.connection_dropped || self.connection_refused || self.io_error || self.timed_out {
            FailureClass::Transient
        } else {
            FailureClass::Fatal
        }
    }

    /// Classifies a failure by its signs.
    pub fn classify(&self) -> (class: FailureClass)
        ensures
            class == self.class(),
    {
        if self.connection_dropped || self.connection_refused || self.io_error || self.timed_out {
            FailureClass::Transient
        } else {
            FailureClass::Fatal
        }
    }
}

/// Whether the error is one of the connection: dropped, failed in I/O, or
/// timed out. A refusal of the connection is a failure in I/O.
pub open spec fn connection_at_fault(err: redis::RedisError) -> bool {
    connection_dropped(err) || io_failure(err) || timed_out(err)
}

/// The class of an error of the store client.
pub open spec fn error_class(err: redis::RedisError) -> FailureClass {
    if connection_at_fault(err) {
        FailureClass::Transient
    } else {
        FailureClass::Fatal
    }
}

/// Reads the four signs off an error of the store client.
pub fn failure_signs(err: &redis::RedisError) -> (signs: FailureSigns)
    ensures
        signs.connection_dropped == connection_dropped(*err),
        signs.connection_refused ==> io_failure(*err),
        signs.io_error == io_failure(*err),
        signs.timed_out == timed_out(*err),
        signs.class() == error_class(*err),
{
    FailureSigns {
        connection_dropped: err.is_connection_dropped(),
        connection_refused: err.is_connection_refusal(),
        io_error: err.is_io_error(),
        timed_out: err.is_timeout(),
    }
}

/// Classifies an error of the store client: transient if it shows a
/// dropped connection, a refused one, a failure in I/O or a timeout, fatal
/// if it shows none of them.
pub fn classify_error(err: &redis::RedisError) -> (class: FailureClass)
    ensures
        class == error_class(*err),
{
    failure_signs(err).classify()
}

/// Turns the result of a store attempt into the event the writer expects.
pub fn store_event<T>(result: &Result<T, redis::RedisError>) -> (event: Event)
    ensures
        event@ == match result {
            Ok(_) => EventView::StoreSucceeded,
            Err(err) => EventView::StoreFailed(error_class(*err)),
        },
{
    match result {
        Ok(_) => Event::StoreSucceeded,
        Err(err) => Event::StoreFailed(classify_error(err)),
    }
}

/// Turns the result of a connection attempt into the event the writer
/// expects.
pub fn connect_event<T>(result: &Result<T, redis::RedisError>) -> (event: Event)
    ensures
        event@ == if result is Ok {
            EventView::ConnectSucceeded
        } else {
            EventView::ConnectFailed
        },
{
    match result {
        Ok(_) => Event::ConnectSucceeded,
        Err(_) => Event::ConnectFailed,
    }
}

} // verus!
