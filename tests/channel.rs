use lightyear::channel::{ChannelError, OrderedReceiver, ReliableSender, SequencedReceiver};

#[test]
fn sequenced_drops_older_and_duplicate() {
    let mut rx = SequencedReceiver::new();
    assert!(rx.receive(5));
    assert!(!rx.receive(3));
    assert!(!rx.receive(5));
    assert!(rx.receive(6));
    assert_eq!(rx.last, Some(6));
}

#[test]
fn sequenced_newer_first_then_older_is_dropped() {
    let mut rx = SequencedReceiver::new();
    assert!(rx.receive(2));
    assert!(!rx.receive(1));
    let mut rx = SequencedReceiver::new();
    assert!(rx.receive(1));
    assert!(rx.receive(2));
}

#[test]
fn ordered_holds_back_until_gap_fills() {
    let mut rx = OrderedReceiver::new();
    assert!(rx.receive(1, vec![b'b']).is_empty());
    assert!(rx.receive(2, vec![b'c']).is_empty());
    let out = rx.receive(0, vec![b'a']);
    assert_eq!(out, vec![(0, vec![b'a']), (1, vec![b'b']), (2, vec![b'c'])]);
    assert_eq!(rx.next, 3);
    assert!(rx.pending.is_empty());
}

#[test]
fn ordered_drops_duplicates() {
    let mut rx = OrderedReceiver::new();
    assert_eq!(rx.receive(0, vec![1]), vec![(0, vec![1])]);
    assert!(rx.receive(0, vec![9]).is_empty());
    assert!(rx.receive(2, vec![3]).is_empty());
    assert!(rx.receive(2, vec![9]).is_empty());
    assert_eq!(rx.receive(1, vec![2]), vec![(1, vec![2]), (2, vec![3])]);
}

#[test]
fn reliable_sender_applies_backpressure() {
    let mut tx = ReliableSender::new(2);
    assert_eq!(tx.send(vec![1]), Ok(0));
    assert_eq!(tx.send(vec![2]), Ok(1));
    assert_eq!(tx.send(vec![3]), Err(ChannelError::ChannelOverflow));
    assert_eq!(tx.unacked.len(), 2);
    assert!(tx.ack(0));
    assert!(!tx.ack(0));
    assert!(!tx.ack(7));
    assert_eq!(tx.send(vec![4]), Ok(2));
    assert_eq!(tx.unacked, vec![(1, vec![2]), (2, vec![4])]);
}

#[test]
fn reliable_sender_with_zero_bound_refuses_all() {
    let mut tx = ReliableSender::new(0);
    assert_eq!(tx.send(vec![]), Err(ChannelError::ChannelOverflow));
    assert_eq!(tx.next_seq, 0);
}

#[test]
fn sequenced_batch_surfaces_only_newest() {
    let mut rx = SequencedReceiver::new();
    assert_eq!(rx.receive_batch(&vec![3, 7, 5]), Some(7));
    assert_eq!(rx.last, Some(7));
    assert_eq!(rx.receive_batch(&vec![6, 7, 2]), None);
    assert_eq!(rx.last, Some(7));
    assert_eq!(rx.receive_batch(&vec![]), None);
    assert_eq!(rx.receive_batch(&vec![8, 9]), Some(9));
    assert!(!rx.receive(8));
}

#[test]
fn ordered_keeps_message_ahead_of_next() {
    let mut rx = OrderedReceiver::new();
    assert!(rx.receive(3, vec![7]).is_empty());
    assert_eq!(rx.pending, vec![(3, vec![7])]);
    assert_eq!(rx.next, 0);
}
