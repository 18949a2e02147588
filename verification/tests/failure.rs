use redis_feeder::failure::{classify_error, connect_event, failure_signs, store_event, FailureSigns};
use redis_feeder::feeder::{Event, FailureClass};

fn io_error(kind: std::io::ErrorKind) -> redis::RedisError {
    redis::RedisError::from(std::io::Error::new(kind, "scripted"))
}

fn type_error() -> redis::RedisError {
    redis::RedisError::from((redis::ErrorKind::UnexpectedReturnType, "wrong kind of value"))
}

#[test]
fn no_sign_means_fatal() {
    let signs = FailureSigns {
        connection_dropped: false,
        connection_refused: false,
        io_error: false,
        timed_out: false,
    };
    assert_eq!(signs.classify(), FailureClass::Fatal);
}

#[test]
fn any_single_sign_means_transient() {
    for i in 0..4 {
        let signs = FailureSigns {
            connection_dropped: i == 0,
            connection_refused: i == 1,
            io_error: i == 2,
            timed_out: i == 3,
        };
        assert_eq!(signs.classify(), FailureClass::Transient);
    }
}

#[test]
fn all_signs_mean_transient() {
    let signs = FailureSigns {
        connection_dropped: true,
        connection_refused: true,
        io_error: true,
        timed_out: true,
    };
    assert_eq!(signs.classify(), FailureClass::Transient);
}

#[test]
fn dropped_connection_is_transient() {
    let err = io_error(std::io::ErrorKind::BrokenPipe);
    let signs = failure_signs(&err);
    assert!(signs.connection_dropped);
    assert!(signs.io_error);
    assert!(!signs.timed_out);
    assert_eq!(classify_error(&err), FailureClass::Transient);
}

#[test]
fn refused_connection_is_transient() {
    let err = io_error(std::io::ErrorKind::ConnectionRefused);
    assert!(failure_signs(&err).connection_refused);
    assert_eq!(classify_error(&err), FailureClass::Transient);
}

#[test]
fn timeout_is_transient() {
    let err = io_error(std::io::ErrorKind::TimedOut);
    let signs = failure_signs(&err);
    assert!(signs.timed_out);
    assert!(!signs.connection_dropped);
    assert_eq!(classify_error(&err), FailureClass::Transient);
}

#[test]
fn other_io_error_is_transient() {
    let err = io_error(std::io::ErrorKind::PermissionDenied);
    let signs = failure_signs(&err);
    assert_eq!(
        signs,
        FailureSigns {
            connection_dropped: false,
            connection_refused: false,
            io_error: true,
            timed_out: false,
        }
    );
    assert_eq!(classify_error(&err), FailureClass::Transient);
}

#[test]
fn type_mismatch_is_fatal() {
    let err = type_error();
    assert_eq!(
        failure_signs(&err),
        FailureSigns {
            connection_dropped: false,
            connection_refused: false,
            io_error: false,
            timed_out: false,
        }
    );
    assert_eq!(classify_error(&err), FailureClass::Fatal);
}

#[test]
fn rejection_by_the_server_is_fatal() {
    let err = redis::RedisError::from((redis::ErrorKind::Extension, "rejected"));
    assert_eq!(classify_error(&err), FailureClass::Fatal);
}

#[test]
fn store_result_becomes_an_event() {
    let stored: Result<(), redis::RedisError> = Ok(());
    assert_eq!(store_event(&stored), Event::StoreSucceeded);
    let lost: Result<(), redis::RedisError> = Err(io_error(std::io::ErrorKind::ConnectionReset));
    assert_eq!(store_event(&lost), Event::StoreFailed(FailureClass::Transient));
    let rejected: Result<(), redis::RedisError> = Err(type_error());
    assert_eq!(store_event(&rejected), Event::StoreFailed(FailureClass::Fatal));
}

#[test]
fn connect_result_becomes_an_event() {
    let connected: Result<u8, redis::RedisError> = Ok(0);
    assert_eq!(connect_event(&connected), Event::ConnectSucceeded);
    let refused: Result<u8, redis::RedisError> =
        Err(io_error(std::io::ErrorKind::ConnectionRefused));
    assert_eq!(connect_event(&refused), Event::ConnectFailed);
    let odd: Result<u8, redis::RedisError> = Err(type_error());
    assert_eq!(connect_event(&odd), Event::ConnectFailed);
}
