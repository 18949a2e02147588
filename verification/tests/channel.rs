use redis_feeder::channel::{OverwriteChannel, DEFAULT_CAPACITY};
use redis_feeder::message::{ChannelClosed, FeederMessage};
use redis_feeder::ring::MAX_CAPACITY;

fn line(text: &str) -> FeederMessage {
    FeederMessage::Line(text.to_string())
}

fn lines(texts: &[&str]) -> Vec<String> {
    texts.iter().map(|text| text.to_string()).collect()
}

#[test]
fn capacity_must_be_at_least_one() {
    assert!(OverwriteChannel::new(0).is_none());
    assert!(OverwriteChannel::new(1).is_some());
}

#[test]
fn capacity_above_the_limit_is_refused() {
    assert!(OverwriteChannel::new(MAX_CAPACITY + 1).is_none());
    assert!(OverwriteChannel::new(usize::MAX).is_none());
}

#[test]
fn capacity_limit_is_what_an_allocation_can_hold() {
    assert_eq!(MAX_CAPACITY, usize::MAX / 128);
    let slot = 8 + std::mem::size_of::<FeederMessage>();
    assert!(slot < 64);
    assert!(MAX_CAPACITY.checked_mul(64).unwrap() <= isize::MAX as usize);
}

#[test]
fn large_capacity_is_accepted() {
    let mut channel = OverwriteChannel::new(1_000_000).unwrap();
    assert_eq!(channel.capacity(), 1_000_000);
    assert_eq!(channel.send(line("first")), Ok(None));
    assert_eq!(channel.try_recv(), Ok(Some(line("first"))));
}

#[test]
fn default_capacity_is_1024() {
    assert_eq!(DEFAULT_CAPACITY, 1024);
    let channel = OverwriteChannel::new(DEFAULT_CAPACITY).unwrap();
    assert_eq!(channel.capacity(), 1024);
}

#[test]
fn new_channel_is_empty() {
    let mut channel = OverwriteChannel::new(4).unwrap();
    assert_eq!(channel.capacity(), 4);
    assert!(channel.is_sender_open());
    assert!(channel.is_receiver_open());
    assert_eq!(channel.try_recv(), Ok(None));
    assert_eq!(channel.drain(), Vec::<FeederMessage>::new());
}

#[test]
fn send_succeeds_however_full_the_buffer_is() {
    for capacity in [1usize, 2, 3, 7] {
        let mut channel = OverwriteChannel::new(capacity).unwrap();
        for i in 0..50 {
            let sent = channel.send(line(&format!("record {i}")));
            assert!(sent.is_ok());
            assert_ne!(sent, Err(ChannelClosed));
        }
    }
}

#[test]
fn send_hands_back_the_message_it_overwrites() {
    let mut channel = OverwriteChannel::new(2).unwrap();
    assert_eq!(channel.send(line("a")), Ok(None));
    assert_eq!(channel.send(line("b")), Ok(None));
    assert_eq!(channel.send(line("c")), Ok(Some(line("a"))));
    assert_eq!(channel.send(FeederMessage::Quit), Ok(Some(line("b"))));
    assert_eq!(channel.drain(), vec![line("c"), FeederMessage::Quit]);
}

#[test]
fn capacity_two_keeps_b_and_c_of_a_b_c() {
    let mut channel = OverwriteChannel::new(2).unwrap();
    channel.send(line("a")).unwrap();
    channel.send(line("b")).unwrap();
    channel.send(line("c")).unwrap();
    assert_eq!(channel.try_recv(), Ok(Some(line("b"))));
    assert_eq!(channel.try_recv(), Ok(Some(line("c"))));
    assert_eq!(channel.try_recv(), Ok(None));
}

#[test]
fn burst_leaves_the_last_capacity_records_in_order() {
    let mut channel = OverwriteChannel::new(3).unwrap();
    let burst = lines(&["r0", "r1", "r2", "r3", "r4", "r5", "r6", "r7", "r8", "r9"]);
    let discarded = channel.send_lines(&burst);
    assert_eq!(discarded, 7);
    assert_eq!(channel.drain(), vec![line("r7"), line("r8"), line("r9")]);
    assert_eq!(channel.try_recv(), Ok(None));
}

#[test]
fn burst_of_exactly_the_capacity_loses_nothing() {
    let mut channel = OverwriteChannel::new(3).unwrap();
    assert_eq!(channel.send_lines(&lines(&["x", "y", "z"])), 0);
    assert_eq!(channel.drain(), vec![line("x"), line("y"), line("z")]);
}

#[test]
fn burst_counts_what_it_discards_of_the_earlier_content() {
    let mut channel = OverwriteChannel::new(4).unwrap();
    channel.send(line("old")).unwrap();
    let discarded = channel.send_lines(&lines(&["n1", "n2", "n3", "n4", "n5"]));
    assert_eq!(discarded, 2);
    assert_eq!(channel.drain(), vec![line("n2"), line("n3"), line("n4"), line("n5")]);
}

#[test]
fn empty_burst_changes_nothing() {
    let mut channel = OverwriteChannel::new(2).unwrap();
    channel.send(line("kept")).unwrap();
    assert_eq!(channel.send_lines(&Vec::new()), 0);
    assert_eq!(channel.drain(), vec![line("kept")]);
}

#[test]
fn capacity_one_keeps_only_the_newest() {
    let mut channel = OverwriteChannel::new(1).unwrap();
    assert_eq!(channel.send(line("first")), Ok(None));
    assert_eq!(channel.send(line("second")), Ok(Some(line("first"))));
    assert_eq!(channel.send(line("third")), Ok(Some(line("second"))));
    assert_eq!(channel.recv(), Ok(line("third")));
    assert_eq!(channel.try_recv(), Ok(None));
}

#[test]
fn recv_takes_the_oldest_pending_message() {
    let mut channel = OverwriteChannel::new(3).unwrap();
    channel.send(line("one")).unwrap();
    channel.send(line("two")).unwrap();
    assert_eq!(channel.recv(), Ok(line("one")));
    channel.send(line("three")).unwrap();
    assert_eq!(channel.recv(), Ok(line("two")));
    assert_eq!(channel.recv(), Ok(line("three")));
    assert_eq!(channel.try_recv(), Ok(None));
}

#[test]
fn consumer_that_keeps_pace_sees_every_record() {
    let mut channel = OverwriteChannel::new(1).unwrap();
    let mut seen = Vec::new();
    for i in 0..20 {
        assert_eq!(channel.send(line(&format!("record {i}"))), Ok(None));
        seen.push(channel.try_recv().unwrap().unwrap());
    }
    let expected: Vec<FeederMessage> = (0..20).map(|i| line(&format!("record {i}"))).collect();
    assert_eq!(seen, expected);
}

#[test]
fn room_freed_by_receiving_is_used_again() {
    let mut channel = OverwriteChannel::new(2).unwrap();
    channel.send(line("a")).unwrap();
    channel.send(line("b")).unwrap();
    assert_eq!(channel.try_recv(), Ok(Some(line("a"))));
    assert_eq!(channel.send(line("c")), Ok(None));
    assert_eq!(channel.send(line("d")), Ok(Some(line("b"))));
    assert_eq!(channel.drain(), vec![line("c"), line("d")]);
}

#[test]
fn ends_carry_on_where_the_channel_stood() {
    let mut channel = OverwriteChannel::new(2).unwrap();
    channel.send(line("pending")).unwrap();
    let (sender, receiver) = channel.into_ends().unwrap();
    assert!(sender.send(FeederMessage::Quit).is_ok());
    assert_eq!(receiver.recv(), Ok(line("pending")));
    drop(sender);
    assert_eq!(receiver.recv(), Ok(FeederMessage::Quit));
    assert!(receiver.recv().is_err());
}

#[test]
fn sending_to_a_dropped_receiver_fails() {
    let (sender, receiver) = OverwriteChannel::new(2).unwrap().into_ends().unwrap();
    drop(receiver);
    assert!(sender.send(line("nobody listens")).is_err());
}

#[test]
fn closed_sender_is_reported_once_the_buffer_is_empty() {
    let mut channel = OverwriteChannel::new(3).unwrap();
    channel.send(line("one")).unwrap();
    channel.send(line("two")).unwrap();
    channel.close_sender();
    assert!(!channel.is_sender_open());
    assert!(channel.is_receiver_open());
    assert_eq!(channel.recv(), Ok(line("one")));
    assert_eq!(channel.try_recv(), Ok(Some(line("two"))));
    assert_eq!(channel.try_recv(), Err(ChannelClosed));
    assert_eq!(channel.recv(), Err(ChannelClosed));
    assert_eq!(channel.recv(), Err(ChannelClosed));
}

#[test]
fn empty_channel_with_closed_sender_is_closed_at_once() {
    let mut channel = OverwriteChannel::new(1).unwrap();
    channel.close_sender();
    assert_eq!(channel.recv(), Err(ChannelClosed));
    assert_eq!(channel.try_recv(), Err(ChannelClosed));
    assert_eq!(channel.drain(), Vec::<FeederMessage>::new());
}

#[test]
fn drain_takes_what_a_closed_sender_left() {
    let mut channel = OverwriteChannel::new(2).unwrap();
    channel.send_lines(&lines(&["a", "b", "c"]));
    channel.close_sender();
    assert_eq!(channel.drain(), vec![line("b"), line("c")]);
    assert_eq!(channel.try_recv(), Err(ChannelClosed));
}

#[test]
fn send_fails_only_when_the_receiver_is_closed() {
    let mut channel = OverwriteChannel::new(2).unwrap();
    assert_eq!(channel.send(line("heard")), Ok(None));
    channel.close_receiver();
    assert!(channel.is_sender_open());
    assert!(!channel.is_receiver_open());
    assert_eq!(channel.send(line("unheard")), Err(ChannelClosed));
    assert_eq!(channel.send(FeederMessage::Quit), Err(ChannelClosed));
}

#[test]
fn channel_with_a_closed_side_has_no_ends_to_give() {
    let mut channel = OverwriteChannel::new(2).unwrap();
    channel.close_sender();
    assert!(channel.into_ends().is_none());
    let mut channel = OverwriteChannel::new(2).unwrap();
    channel.close_receiver();
    assert!(channel.into_ends().is_none());
    assert!(OverwriteChannel::new(2).unwrap().into_ends().is_some());
}

#[test]
fn closing_both_sides_leaves_a_channel_without_sides() {
    let mut channel = OverwriteChannel::new(2).unwrap();
    channel.send(line("left behind")).unwrap();
    channel.close_sender();
    channel.close_receiver();
    assert!(!channel.is_sender_open());
    assert!(!channel.is_receiver_open());
    assert_eq!(channel.capacity(), 2);
    assert!(channel.into_ends().is_none());

    let mut channel = OverwriteChannel::new(3).unwrap();
    channel.close_receiver();
    channel.close_sender();
    channel.close_sender();
    channel.close_receiver();
    assert!(!channel.is_sender_open());
    assert!(!channel.is_receiver_open());
    assert_eq!(channel.capacity(), 3);
}

#[test]
fn ends_keep_the_capacity_of_the_channel() {
    let mut channel = OverwriteChannel::new(3).unwrap();
    channel.send(line("a")).unwrap();
    let (sender, receiver) = channel.into_ends().unwrap();
    assert_eq!(sender.send(line("b")), Ok(None));
    assert_eq!(sender.send(line("c")), Ok(None));
    assert_eq!(sender.send(line("d")), Ok(Some(line("a"))));
    assert_eq!(receiver.try_recv(), Ok(line("b")));
    assert_eq!(receiver.try_recv(), Ok(line("c")));
    assert_eq!(receiver.try_recv(), Ok(line("d")));
    assert!(receiver.try_recv().is_err());
}
