use rose::Channel;
use rose::ChannelClosed;
use rose::Completion;
use rose::Mailbox;
use rose::Received;

#[test]
fn mailbox_delivers_nothing_when_nothing_was_sent() {
    let mut m: Mailbox<u64> = Mailbox::new();
    assert_eq!(m.len(), 0);
    assert_eq!(m.drain(), Vec::<u64>::new());
}

#[test]
fn mailbox_delivers_one_value_once() {
    let mut m: Mailbox<u64> = Mailbox::new();
    m.send(7).unwrap();
    assert_eq!(m.drain(), vec![7]);
    assert_eq!(m.drain(), Vec::<u64>::new());
}

#[test]
fn mailbox_delivers_a_hundred_values_in_send_order() {
    let mut m: Mailbox<u64> = Mailbox::new();
    for i in 0..100u64 {
        m.send(i).unwrap();
    }
    let delivered = m.drain();
    let expected: Vec<u64> = (0..100u64).collect();
    assert_eq!(delivered, expected);
    assert_eq!(m.len(), 0);
}

#[test]
fn mailbox_drains_buffered_values_after_close() {
    let mut m: Mailbox<String> = Mailbox::new();
    m.send("first".to_string()).unwrap();
    m.send("second".to_string()).unwrap();
    m.close();
    assert!(m.is_closed());
    assert_eq!(m.drain(), vec!["first".to_string(), "second".to_string()]);
    // Nothing further is ever delivered.
    assert_eq!(m.take_next(), None);
}

#[test]
fn mailbox_refuses_a_send_after_close() {
    let mut m: Mailbox<u64> = Mailbox::new();
    m.send(1).unwrap();
    m.close();
    assert_eq!(m.send(2), Err(ChannelClosed));
    assert_eq!(m.drain(), vec![1]);
}

#[test]
fn mailbox_take_next_pops_the_oldest_value() {
    let mut m: Mailbox<u64> = Mailbox::new();
    m.send(1).unwrap();
    m.send(2).unwrap();
    assert_eq!(m.take_next(), Some(1));
    assert_eq!(m.take_next(), Some(2));
    assert_eq!(m.take_next(), None);
}

#[test]
fn completion_delivers_the_unmodified_result_once() {
    let mut c: Completion<String> = Completion::new();
    c.finish("result".to_string());
    assert_eq!(c.deliver(), "result".to_string());
    // The one delivery has consumed the result.
    assert!(c.delivered);
    assert!(c.result.is_none());
}

#[test]
fn channel_carries_values_in_send_order() {
    let (sender, receiver) = Channel::new::<u64>();
    sender.send(1).unwrap();
    sender.send(2).unwrap();
    sender.send(3).unwrap();
    assert!(matches!(receiver.try_next(), Received::Value(1)));
    assert!(matches!(receiver.try_next(), Received::Value(2)));
    assert!(matches!(receiver.try_next(), Received::Value(3)));
    assert!(matches!(receiver.try_next(), Received::Empty));
}

#[test]
fn channel_drains_buffered_values_after_close() {
    let (sender, receiver) = Channel::new::<u64>();
    sender.send(10).unwrap();
    sender.send(20).unwrap();
    sender.close();
    assert_eq!(receiver.next_blocking(), Some(10));
    assert_eq!(receiver.next_blocking(), Some(20));
    assert_eq!(receiver.next_blocking(), None);
    assert!(matches!(receiver.try_next(), Received::Closed));
}

#[test]
fn channel_send_after_close_hands_the_value_back() {
    let (sender, receiver) = Channel::new::<u64>();
    receiver.close();
    assert_eq!(sender.send(5), Err(5));
}

#[test]
fn channel_clones_share_one_queue() {
    let (sender, receiver) = Channel::new::<u64>();
    let second_sender = sender.clone();
    sender.send(1).unwrap();
    second_sender.send(2).unwrap();
    let second_receiver = receiver.clone();
    assert!(matches!(second_receiver.try_next(), Received::Value(1)));
    assert!(matches!(receiver.try_next(), Received::Value(2)));
}

#[test]
fn bounded_worker_channel_applies_backpressure_without_losing_values() {
    // The worker channel of the background runner is bounded at one:
    // a second send must wait until the first value was drained.  Here
    // the worker's sends and the UI-side drains are interleaved by
    // hand; every value still arrives, in emission order.
    let (sender, receiver) = async_channel::bounded::<u64>(1);
    let mut delivered: Mailbox<u64> = Mailbox::new();
    for i in 0..5u64 {
        sender.try_send(i).unwrap();
        // The channel is full now: the worker would block here.
        assert!(sender.try_send(99).is_err());
        let v = receiver.try_recv().unwrap();
        delivered.send(v).unwrap();
    }
    drop(sender);
    delivered.close();
    assert_eq!(delivered.drain(), vec![0, 1, 2, 3, 4]);
}
