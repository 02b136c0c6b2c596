use hat_monitor::sample::{HatSample, Reading};
use hat_monitor::slot::{BroadcastSlot, SlotReader};

fn sample_at(timestamp: u64, temperature: f32) -> HatSample {
    HatSample {
        timestamp,
        temperature: Reading::from_bits(temperature.to_bits()),
        ..HatSample::default()
    }
}

#[test]
fn new_slot_holds_initial_value_at_version_zero() {
    let slot = BroadcastSlot::new(HatSample::default());
    assert_eq!(slot.current(), (HatSample::default(), 0));
    assert_eq!(slot.version(), 0);
}

#[test]
fn publish_replaces_value_and_counts() {
    let mut slot = BroadcastSlot::new(HatSample::default());
    let s1 = sample_at(100, 27.0);
    slot.publish(s1);
    assert_eq!(slot.current(), (s1, 1));
    let s2 = sample_at(105, 28.0);
    slot.publish(s2);
    assert_eq!(slot.current(), (s2, 2));
    assert_eq!(slot.version(), 2);
}

#[test]
fn poll_change_gives_nothing_until_version_passes() {
    let mut slot = BroadcastSlot::new(HatSample::default());
    assert_eq!(slot.poll_change(0), None);
    let s1 = sample_at(100, 27.0);
    slot.publish(s1);
    assert_eq!(slot.poll_change(0), Some((s1, 1)));
    assert_eq!(slot.poll_change(1), None);
    assert_eq!(slot.poll_change(2), None);
    assert_eq!(slot.poll_change(u64::MAX), None);
}

#[test]
fn coalescing_reader_gets_only_the_last_of_three() {
    let mut slot = BroadcastSlot::new(HatSample::default());
    let mut reader = SlotReader::new();
    let s1 = sample_at(100, 27.0);
    let s2 = sample_at(105, 28.0);
    let s3 = sample_at(110, 29.0);
    slot.publish(s1);
    slot.publish(s2);
    slot.publish(s3);
    assert_eq!(reader.observe(&slot), Some(s3));
    assert_eq!(reader.last_seen(), 3);
    assert_eq!(reader.observe(&slot), None);
    assert_eq!(reader.last_seen(), 3);
}

#[test]
fn coalescing_by_version_number() {
    let mut slot = BroadcastSlot::new(HatSample::default());
    let s1 = sample_at(100, 27.0);
    slot.publish(s1);
    let (_, seen) = slot.poll_change(0).unwrap();
    assert_eq!(seen, 1);
    let s2 = sample_at(105, 28.0);
    let s3 = sample_at(110, 29.0);
    slot.publish(s2);
    slot.publish(s3);
    assert_eq!(slot.poll_change(seen), Some((s3, 3)));
}

#[test]
fn two_readers_converge_and_never_go_back() {
    let mut slot = BroadcastSlot::new(HatSample::default());
    let mut early = SlotReader::new();
    let mut seen_by_early = vec![early.last_seen()];
    let s1 = sample_at(100, 27.0);
    slot.publish(s1);
    assert_eq!(early.observe(&slot), Some(s1));
    seen_by_early.push(early.last_seen());

    let s2 = sample_at(105, 28.0);
    slot.publish(s2);
    let mut late = SlotReader::new();
    let mut seen_by_late = vec![late.last_seen()];
    assert_eq!(late.observe(&slot), Some(s2));
    seen_by_late.push(late.last_seen());

    let s3 = sample_at(110, 29.0);
    let s4 = sample_at(115, 30.0);
    slot.publish(s3);
    assert_eq!(early.observe(&slot), Some(s3));
    seen_by_early.push(early.last_seen());
    slot.publish(s4);

    assert_eq!(early.observe(&slot), Some(s4));
    seen_by_early.push(early.last_seen());
    assert_eq!(late.observe(&slot), Some(s4));
    seen_by_late.push(late.last_seen());

    assert_eq!(early.last_seen(), late.last_seen());
    assert_eq!(seen_by_early, vec![0, 1, 3, 4]);
    assert_eq!(seen_by_late, vec![0, 2, 4]);
    assert!(seen_by_early.windows(2).all(|w| w[0] <= w[1]));
    assert!(seen_by_late.windows(2).all(|w| w[0] <= w[1]));
}

#[test]
fn late_joiner_reads_latest_without_waiting() {
    let mut slot = BroadcastSlot::new(HatSample::default());
    let s1 = sample_at(100, 27.0);
    let s2 = sample_at(105, 28.0);
    slot.publish(s1);
    slot.publish(s2);
    let (value, version) = slot.current();
    assert_eq!(value, s2);
    assert_ne!(value, s1);
    assert_eq!(version, 2);
}

#[test]
fn reader_ahead_of_slot_is_left_alone() {
    let mut a = BroadcastSlot::new(HatSample::default());
    a.publish(sample_at(1, 1.0));
    a.publish(sample_at(2, 2.0));
    let mut reader = SlotReader::new();
    assert!(reader.observe(&a).is_some());
    let mut b = BroadcastSlot::new(HatSample::default());
    b.publish(sample_at(3, 3.0));
    assert_eq!(reader.observe(&b), None);
    assert_eq!(reader.last_seen(), 2);
}

#[test]
fn fresh_reader_on_untouched_slot_sees_nothing() {
    let slot = BroadcastSlot::new(sample_at(9, 9.0));
    let mut reader = SlotReader::new();
    assert_eq!(reader.observe(&slot), None);
    assert_eq!(reader.last_seen(), 0);
}

#[test]
fn republishing_the_same_sample_is_still_a_change() {
    let mut slot = BroadcastSlot::new(HatSample::default());
    let mut reader = SlotReader::new();
    let s = sample_at(100, 27.0);
    slot.publish(s);
    assert_eq!(reader.observe(&slot), Some(s));
    slot.publish(s);
    assert_eq!(reader.observe(&slot), Some(s));
    assert_eq!(reader.last_seen(), 2);
}
