use tabletop_net::{ChannelReceiver, DeliveryMode};

#[test]
fn sequenced_reliable_discards_stale_arrivals() {
    let mut rx = ChannelReceiver::new(DeliveryMode::SequencedReliable);
    assert!(rx.accept(1, 5));
    // Older than the newest applied message from sender 1: discarded.
    assert!(!rx.accept(1, 3));
    // A duplicate of the newest is stale too.
    assert!(!rx.accept(1, 5));
    // Newer: applied.
    assert!(rx.accept(1, 6));
    // After 6 was applied, 5 can never be applied again.
    assert!(!rx.accept(1, 5));
}

#[test]
fn sequenced_unreliable_discards_stale_arrivals() {
    let mut rx = ChannelReceiver::new(DeliveryMode::SequencedUnreliable);
    assert!(rx.accept(9, 100));
    assert!(!rx.accept(9, 99));
    assert!(rx.accept(9, 101));
}

#[test]
fn sequencing_is_per_sender() {
    let mut rx = ChannelReceiver::new(DeliveryMode::SequencedReliable);
    assert!(rx.accept(1, 50));
    // Sender 2 has its own sequence: an old-looking number is fine.
    assert!(rx.accept(2, 1));
    assert!(!rx.accept(2, 1));
    assert!(!rx.accept(1, 50));
}

#[test]
fn unordered_reliable_applies_everything() {
    let mut rx = ChannelReceiver::new(DeliveryMode::UnorderedReliable);
    assert!(rx.accept(1, 5));
    assert!(rx.accept(1, 3));
    assert!(rx.accept(1, 5));
    assert!(rx.accept(1, 4));
}
