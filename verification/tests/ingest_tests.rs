use hat_monitor::ingest::{ingest, BrokerEvent};
use hat_monitor::sample::{HatSample, Reading};
use hat_monitor::slot::BroadcastSlot;
use hat_monitor::wire::{DecodeError, Field};

fn sample_at(timestamp: u64, temperature: f32) -> HatSample {
    HatSample {
        timestamp,
        temperature: Reading::from_bits(temperature.to_bits()),
        ..HatSample::default()
    }
}

#[test]
fn decoded_message_is_published() {
    let mut slot = BroadcastSlot::new(HatSample::default());
    let s = sample_at(100, 27.0);
    assert_eq!(ingest(&mut slot, BrokerEvent::Sample(s)), Some(s));
    assert_eq!(slot.current(), (s, 1));
}

#[test]
fn garbled_payload_publishes_default_once_and_worker_continues() {
    let mut slot = BroadcastSlot::new(HatSample::default());
    let first = sample_at(100, 27.0);
    ingest(&mut slot, BrokerEvent::Sample(first));
    assert_eq!(slot.current(), (first, 1));

    let published = ingest(&mut slot, BrokerEvent::Garbled(DecodeError::Syntax));
    assert_eq!(published, Some(HatSample::default()));
    assert_eq!(slot.current(), (HatSample::default(), 2));

    let next = sample_at(105, 28.0);
    assert_eq!(ingest(&mut slot, BrokerEvent::Sample(next)), Some(next));
    assert_eq!(slot.current(), (next, 3));
}

#[test]
fn every_kind_of_decode_failure_falls_back() {
    for reason in [
        DecodeError::Syntax,
        DecodeError::Missing(Field::Humidity),
        DecodeError::Mistyped(Field::Timestamp),
    ] {
        let mut slot = BroadcastSlot::new(sample_at(7, 7.0));
        assert_eq!(ingest(&mut slot, BrokerEvent::Garbled(reason)), Some(HatSample::default()));
        assert_eq!(slot.current(), (HatSample::default(), 1));
    }
}

#[test]
fn notices_and_transport_errors_leave_the_slot_alone() {
    let mut slot = BroadcastSlot::new(HatSample::default());
    let s = sample_at(100, 27.0);
    ingest(&mut slot, BrokerEvent::Sample(s));
    assert_eq!(ingest(&mut slot, BrokerEvent::Notice), None);
    assert_eq!(slot.current(), (s, 1));
    assert_eq!(ingest(&mut slot, BrokerEvent::TransportError), None);
    assert_eq!(slot.current(), (s, 1));
    let t = sample_at(105, 28.0);
    assert_eq!(ingest(&mut slot, BrokerEvent::Sample(t)), Some(t));
    assert_eq!(slot.current(), (t, 2));
}

#[test]
fn message_event_follows_the_decode_result() {
    let s = sample_at(100, 27.0);
    assert_eq!(BrokerEvent::message(Ok(s)), BrokerEvent::Sample(s));
    assert_eq!(
        BrokerEvent::message(Err(DecodeError::Missing(Field::Ppm))),
        BrokerEvent::Garbled(DecodeError::Missing(Field::Ppm))
    );
}

#[test]
fn only_messages_count_as_messages() {
    assert!(BrokerEvent::Sample(HatSample::default()).is_message());
    assert!(BrokerEvent::Garbled(DecodeError::Syntax).is_message());
    assert!(!BrokerEvent::Notice.is_message());
    assert!(!BrokerEvent::TransportError.is_message());
}

#[test]
fn one_publish_per_message_over_a_run() {
    let mut slot = BroadcastSlot::new(HatSample::default());
    let events = [
        BrokerEvent::Notice,
        BrokerEvent::Sample(sample_at(1, 1.0)),
        BrokerEvent::TransportError,
        BrokerEvent::Garbled(DecodeError::Syntax),
        BrokerEvent::Notice,
        BrokerEvent::Sample(sample_at(2, 2.0)),
        BrokerEvent::TransportError,
    ];
    let mut publishes = 0;
    for event in events {
        if ingest(&mut slot, event).is_some() {
            publishes += 1;
        }
    }
    assert_eq!(publishes, 3);
    assert_eq!(slot.current(), (sample_at(2, 2.0), 3));
}
