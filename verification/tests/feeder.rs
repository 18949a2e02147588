use redis_feeder::feeder::{Directive, Event, FailureClass, Notice, RedisFeeder, StoreCommand};
use redis_feeder::message::FeederMessage;

fn connected(timeout: u64, key: &str, delay: u64) -> RedisFeeder {
    let mut feeder = RedisFeeder::new(timeout, key.to_string(), StoreCommand::Rpush, delay);
    assert_eq!(feeder.handle(Event::ConnectSucceeded), Notice::Connected);
    feeder
}

fn store(key: &str, value: &str) -> Directive {
    Directive::Store {
        command: StoreCommand::Rpush,
        key: key.to_string(),
        value: value.to_string(),
    }
}

#[test]
fn new_feeder_wants_to_connect() {
    let feeder = RedisFeeder::new(5, "lines".to_string(), StoreCommand::Rpush, 7);
    assert_eq!(feeder.directive(), Directive::Connect { timeout: 5 });
}

#[test]
fn first_connection_makes_the_feeder_idle() {
    let mut feeder = RedisFeeder::new(5, "lines".to_string(), StoreCommand::Rpush, 7);
    assert_eq!(feeder.handle(Event::ConnectSucceeded), Notice::Connected);
    assert_eq!(feeder.directive(), Directive::Receive);
}

#[test]
fn failed_connection_is_retried_after_the_delay() {
    let mut feeder = RedisFeeder::new(5, "lines".to_string(), StoreCommand::Rpush, 7);
    for _ in 0..10 {
        assert_eq!(feeder.handle(Event::ConnectFailed), Notice::ConnectFailed);
        assert_eq!(feeder.directive(), Directive::Retry { delay: 7, timeout: 5 });
    }
    assert_eq!(feeder.handle(Event::ConnectSucceeded), Notice::Connected);
    assert_eq!(feeder.directive(), Directive::Receive);
}

#[test]
fn feed_sends_the_record_to_the_configured_key() {
    let mut feeder = connected(5, "lines", 7);
    assert_eq!(feeder.feed("hello"), Notice::Accepted);
    assert_eq!(feeder.directive(), store("lines", "hello"));
}

#[test]
fn feed_takes_an_empty_record() {
    let mut feeder = connected(5, "k", 7);
    assert_eq!(feeder.feed(""), Notice::Accepted);
    assert_eq!(feeder.directive(), store("k", ""));
}

#[test]
fn stored_record_leaves_the_feeder_idle() {
    let mut feeder = connected(5, "lines", 7);
    feeder.feed("hello");
    assert_eq!(feeder.handle(Event::StoreSucceeded), Notice::Delivered);
    assert_eq!(feeder.directive(), Directive::Receive);
}

#[test]
fn feed_is_refused_before_the_first_connection() {
    let mut feeder = RedisFeeder::new(5, "lines".to_string(), StoreCommand::Rpush, 7);
    assert_eq!(feeder.feed("early"), Notice::Ignored);
    assert_eq!(feeder.directive(), Directive::Connect { timeout: 5 });
}

#[test]
fn feed_is_refused_while_a_record_is_in_flight() {
    let mut feeder = connected(5, "lines", 7);
    feeder.feed("first");
    assert_eq!(feeder.feed("second"), Notice::Ignored);
    assert_eq!(feeder.directive(), store("lines", "first"));
    feeder.handle(Event::StoreFailed(FailureClass::Transient));
    assert_eq!(feeder.feed("third"), Notice::Ignored);
    assert_eq!(feeder.directive(), Directive::Connect { timeout: 5 });
}

#[test]
fn transient_failure_reconnects_and_retries_the_same_record() {
    let mut feeder = connected(3, "lines", 9);
    feeder.feed("kept");
    assert_eq!(
        feeder.handle(Event::StoreFailed(FailureClass::Transient)),
        Notice::ConnectionLost
    );
    assert_eq!(feeder.directive(), Directive::Connect { timeout: 3 });
    assert_eq!(feeder.handle(Event::ConnectFailed), Notice::ConnectFailed);
    assert_eq!(feeder.directive(), Directive::Retry { delay: 9, timeout: 3 });
    assert_eq!(feeder.handle(Event::ConnectFailed), Notice::ConnectFailed);
    assert_eq!(feeder.directive(), Directive::Retry { delay: 9, timeout: 3 });
    assert_eq!(feeder.handle(Event::ConnectSucceeded), Notice::Reconnected);
    assert_eq!(feeder.directive(), store("lines", "kept"));
    assert_eq!(feeder.handle(Event::StoreSucceeded), Notice::Delivered);
    assert_eq!(feeder.directive(), Directive::Receive);
}

#[test]
fn second_outage_starts_without_a_delay() {
    let mut feeder = connected(3, "lines", 9);
    feeder.feed("kept");
    feeder.handle(Event::StoreFailed(FailureClass::Transient));
    feeder.handle(Event::ConnectFailed);
    feeder.handle(Event::ConnectSucceeded);
    assert_eq!(
        feeder.handle(Event::StoreFailed(FailureClass::Transient)),
        Notice::ConnectionLost
    );
    assert_eq!(feeder.directive(), Directive::Connect { timeout: 3 });
}

#[test]
fn fatal_failure_abandons_the_record() {
    let mut feeder = connected(3, "lines", 9);
    feeder.feed("bad");
    assert_eq!(feeder.handle(Event::StoreFailed(FailureClass::Fatal)), Notice::Abandoned);
    assert_eq!(feeder.directive(), Directive::Receive);
    assert_eq!(feeder.feed("good"), Notice::Accepted);
    assert_eq!(feeder.directive(), store("lines", "good"));
}

#[test]
fn received_line_is_fed() {
    let mut feeder = connected(3, "lines", 9);
    let received = Event::Received(FeederMessage::Line("from the buffer".to_string()));
    assert_eq!(feeder.handle(received), Notice::Accepted);
    assert_eq!(feeder.directive(), store("lines", "from the buffer"));
}

#[test]
fn quit_stops_the_feeder() {
    let mut feeder = connected(3, "lines", 9);
    assert_eq!(feeder.handle(Event::Received(FeederMessage::Quit)), Notice::ShuttingDown);
    assert_eq!(feeder.directive(), Directive::Stop);
}

#[test]
fn closed_buffer_stops_the_feeder() {
    let mut feeder = connected(3, "lines", 9);
    assert_eq!(feeder.handle(Event::Closed), Notice::ShuttingDown);
    assert_eq!(feeder.directive(), Directive::Stop);
}

#[test]
fn stopped_feeder_ignores_everything() {
    let mut feeder = connected(3, "lines", 9);
    feeder.handle(Event::Received(FeederMessage::Quit));
    let events = vec![
        Event::ConnectSucceeded,
        Event::ConnectFailed,
        Event::Received(FeederMessage::Line("late".to_string())),
        Event::Received(FeederMessage::Quit),
        Event::Closed,
        Event::StoreSucceeded,
        Event::StoreFailed(FailureClass::Transient),
        Event::StoreFailed(FailureClass::Fatal),
    ];
    for event in events {
        assert_eq!(feeder.handle(event), Notice::Ignored);
        assert_eq!(feeder.directive(), Directive::Stop);
    }
    assert_eq!(feeder.feed("late"), Notice::Ignored);
    assert_eq!(feeder.directive(), Directive::Stop);
}

#[test]
fn events_that_answer_nothing_are_ignored() {
    let mut feeder = RedisFeeder::new(5, "lines".to_string(), StoreCommand::Rpush, 7);
    assert_eq!(feeder.handle(Event::StoreSucceeded), Notice::Ignored);
    assert_eq!(feeder.handle(Event::StoreFailed(FailureClass::Fatal)), Notice::Ignored);
    assert_eq!(feeder.handle(Event::Closed), Notice::Ignored);
    assert_eq!(feeder.handle(Event::Received(FeederMessage::Quit)), Notice::Ignored);
    assert_eq!(feeder.directive(), Directive::Connect { timeout: 5 });

    let mut feeder = connected(5, "lines", 7);
    assert_eq!(feeder.handle(Event::ConnectSucceeded), Notice::Ignored);
    assert_eq!(feeder.handle(Event::ConnectFailed), Notice::Ignored);
    assert_eq!(feeder.handle(Event::StoreSucceeded), Notice::Ignored);
    assert_eq!(feeder.directive(), Directive::Receive);

    feeder.feed("busy");
    assert_eq!(feeder.handle(Event::ConnectFailed), Notice::Ignored);
    assert_eq!(feeder.handle(Event::Closed), Notice::Ignored);
    assert_eq!(feeder.handle(Event::Received(FeederMessage::Quit)), Notice::Ignored);
    assert_eq!(feeder.directive(), store("lines", "busy"));

    feeder.handle(Event::StoreFailed(FailureClass::Transient));
    assert_eq!(feeder.handle(Event::StoreSucceeded), Notice::Ignored);
    assert_eq!(feeder.handle(Event::StoreFailed(FailureClass::Fatal)), Notice::Ignored);
    assert_eq!(feeder.directive(), Directive::Connect { timeout: 5 });
}

#[test]
fn feeder_is_connected_between_connection_and_loss() {
    let mut feeder = RedisFeeder::new(5, "lines".to_string(), StoreCommand::Rpush, 7);
    assert!(!feeder.is_connected());
    feeder.handle(Event::ConnectFailed);
    assert!(!feeder.is_connected());
    feeder.handle(Event::ConnectSucceeded);
    assert!(feeder.is_connected());
    feeder.feed("record");
    assert!(feeder.is_connected());
    feeder.handle(Event::StoreFailed(FailureClass::Transient));
    assert!(!feeder.is_connected());
    feeder.handle(Event::ConnectSucceeded);
    assert!(feeder.is_connected());
    feeder.handle(Event::StoreSucceeded);
    assert!(feeder.is_connected());
    feeder.handle(Event::Closed);
    assert!(!feeder.is_connected());
}

#[test]
fn clones_are_equal_to_what_they_copy() {
    let message = FeederMessage::line("copied");
    assert_eq!(message, FeederMessage::Line("copied".to_string()));
    assert_eq!(message.clone(), message);
    assert_eq!(FeederMessage::Quit.clone(), FeederMessage::Quit);
    let event = Event::Received(message);
    assert_eq!(event.clone(), event);
    assert_eq!(
        Event::StoreFailed(FailureClass::Fatal).clone(),
        Event::StoreFailed(FailureClass::Fatal)
    );
    let directive = store("key", "value");
    assert_eq!(directive.clone(), directive);
    assert_eq!(
        Directive::Retry { delay: 2, timeout: 3 }.clone(),
        Directive::Retry { delay: 2, timeout: 3 }
    );
}
