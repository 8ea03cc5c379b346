use mercury_protocol::channel::{BoundedChannel, RecvOutcome, SendOutcome};

#[test]
fn test_mpsc_drop_receiver() {
    let mut channel: BoundedChannel<String> = BoundedChannel::new(2);

    // Send an item
    let item = "Hello".to_owned();
    assert_eq!(channel.send(item.clone()), SendOutcome::Sent);

    // Receive the sent item, then drop the receiver
    let mut received: Vec<String> = Vec::new();
    match channel.recv() {
        RecvOutcome::Item(value) => received.push(value),
        _ => panic!("expected a buffered item"),
    }
    channel.close_receiver();
    assert_eq!(received.len(), 1);
    assert_eq!(received[0], item);

    // Further sends should fail
    assert_eq!(channel.send(item), SendOutcome::Disconnected);
}

#[test]
fn test_mpsc_drop_sender() {
    let mut channel: BoundedChannel<String> = BoundedChannel::new(2);

    // Send an item and drop the sender
    let item = "Hello".to_owned();
    assert_eq!(channel.send(item.clone()), SendOutcome::Sent);
    channel.close_sender();

    // Consume the stream, collecting all received elements
    let mut received: Vec<String> = Vec::new();
    loop {
        match channel.recv() {
            RecvOutcome::Item(value) => received.push(value),
            RecvOutcome::Closed => break,
            RecvOutcome::Empty => panic!("open-and-empty on a closed stream"),
        }
    }

    // Stream must end after dropped sender
    assert_eq!(received.len(), 1);
    assert_eq!(received[0], item);
}

#[test]
fn test_capacity_one_backpressure() {
    let mut channel: BoundedChannel<u32> = BoundedChannel::new(1);

    // two sends before any receive: the second suspends, nothing is dropped
    assert_eq!(channel.send(1), SendOutcome::Sent);
    assert_eq!(channel.send(2), SendOutcome::Full);

    // exactly one item received wakes the producer; order is preserved
    match channel.recv() {
        RecvOutcome::Item(value) => assert_eq!(value, 1),
        _ => panic!("expected the first item"),
    }
    assert_eq!(channel.send(2), SendOutcome::Sent);
    match channel.recv() {
        RecvOutcome::Item(value) => assert_eq!(value, 2),
        _ => panic!("expected the retried item"),
    }
    assert!(matches!(channel.recv(), RecvOutcome::Empty));
}

#[test]
fn test_drain_then_fail_after_consumer_drop() {
    let mut channel: BoundedChannel<u32> = BoundedChannel::new(3);

    // three sent, one consumed
    assert_eq!(channel.send(10), SendOutcome::Sent);
    assert_eq!(channel.send(20), SendOutcome::Sent);
    assert_eq!(channel.send(30), SendOutcome::Sent);
    match channel.recv() {
        RecvOutcome::Item(value) => assert_eq!(value, 10),
        _ => panic!("expected the first item"),
    }

    // the consumer goes away: sends fail immediately...
    channel.close_receiver();
    assert_eq!(channel.send(40), SendOutcome::Disconnected);

    // ...while everything buffered stays retrievable, in order, then the
    // stream ends
    match channel.recv() {
        RecvOutcome::Item(value) => assert_eq!(value, 20),
        _ => panic!("expected a buffered item"),
    }
    match channel.recv() {
        RecvOutcome::Item(value) => assert_eq!(value, 30),
        _ => panic!("expected a buffered item"),
    }
    assert!(matches!(channel.recv(), RecvOutcome::Closed));
    assert_eq!(channel.send(50), SendOutcome::Disconnected);
}
