//! The ingestion worker's decision: what one event of the broker connection
//! does to the slot. The worker's loop polls the connection, turns each event
//! into a `BrokerEvent` and calls `ingest`; nothing an event holds can stop it.

use crate::sample::HatSample;
use crate::slot::{BroadcastSlot, SlotView};
use crate::wire::DecodeError;
use vstd::prelude::*;

verus! {

/// One event of the broker connection, as far as the worker tells events
/// apart.
#[derive(Clone, Copy, Debug, PartialEq, Eq, Structural)]
pub enum BrokerEvent {
    /// A message on the subscribed topic whose payload is the wire form of
    /// this sample.
    Sample(HatSample),
    /// A message on the subscribed topic whose payload is not the wire form
    /// of any sample, with the reason.
    Garbled(DecodeError),
    /// Anything else that the connection reports in good order (an
    /// acknowledgement, a keep-alive).
    Notice,
    /// A failure of the connection itself. Reconnecting is the broker
    /// client's business.
    TransportError,
}

impl BrokerEvent {
    /// The sample that the event has published, if it has any published: the
    /// decoded sample, or the all-zero sample in place of a payload that did
    /// not decode.
    pub open spec fn published(self) -> Option<HatSample> {
        match self {
            BrokerEvent::Sample(sample) => Some(sample),
            BrokerEvent::Garbled(_) => Some(HatSample::zeroed()),
            BrokerEvent::Notice => None,
            BrokerEvent::TransportError => None,
        }
    }

    /// The event for a message on the subscribed topic, given what decoding
    /// its payload came to.
    pub fn message(decoded: Result<HatSample, DecodeError>) -> (event: BrokerEvent)
        ensures
            event == match decoded {
                Ok(sample) => BrokerEvent::Sample(sample),
                Err(e) => BrokerEvent::Garbled(e),
            },
    {
        match decoded {
            Ok(sample) => BrokerEvent::Sample(sample),
            Err(e) => BrokerEvent::Garbled(e),
        }
    }

    /// Whether the event carries a message, decodable or not.
    pub fn is_message(&self) -> (r: bool)
        ensures
            r == self.published().is_some(),
    {
        match self {
            BrokerEvent::Sample(_) => true,
            BrokerEvent::Garbled(_) => true,
            BrokerEvent::Notice => false,
            BrokerEvent::TransportError => false,
        }
    }
}

/// The slot after the worker has handled `event`.
pub open spec fn ingested(slot: SlotView, event: BrokerEvent) -> SlotView {
    match event.published() {
        Some(sample) => slot.publish(sample),
        None => slot,
    }
}

/// The slot after the worker has handled `events` one after the other.
pub open spec fn ingested_all(slot: SlotView, events: Seq<BrokerEvent>) -> SlotView
    decreases events.len(),
{
    if events.len() == 0 {
        slot
    } else {
        ingested(ingested_all(slot, events.drop_last()), events.last())
    }
}

/// Handles one event: a message is published into the slot exactly once, as
/// the sample it decoded to or, failing that, as the all-zero sample; any
/// other event leaves the slot as it is. Returns the sample published.
///
/// A slot whose version has reached `u64::MAX` takes no further sample: the
/// event is then passed over like one without a message.
pub fn ingest(slot: &mut BroadcastSlot, event: BrokerEvent) -> (r: Option<HatSample>)
    ensures
        old(slot)@.version < u64::MAX ==> r == event.published() && final(slot)@ == ingested(
            old(slot)@,
            event,
        ),
        old(slot)@.version >= u64::MAX ==> r.is_none() && final(slot)@ == old(slot)@,
{
    if slot.version() == u64::MAX {
        return None;
    }
    match event {
        BrokerEvent::Sample(sample) => {
            slot.publish(sample);
            Some(sample)
        },
        BrokerEvent::Garbled(_) => {
            let fallback = HatSample::default();
            slot.publish(fallback);
            Some(fallback)
        },
        BrokerEvent::Notice => None,
        BrokerEvent::TransportError => None,
    }
}

/// The sample that the last message among `events` has published, if there
/// is a message among them.
pub open spec fn last_published(events: Seq<BrokerEvent>) -> Option<HatSample>
    decreases events.len(),
{
    if events.len() == 0 {
        None
    } else if events.last().published().is_some() {
        events.last().published()
    } else {
        last_published(events.drop_last())
    }
}

/// Fallback on corruption: a payload that does not decode is published once,
/// as the all-zero sample, and the worker goes on: the sample of the next
/// message is published after it as if nothing had happened.
pub proof fn law_fallback_then_continue(slot: SlotView, reason: DecodeError, next: HatSample)
    ensures
        ingested(slot, BrokerEvent::Garbled(reason)) == slot.publish(HatSample::zeroed()),
        ingested(slot, BrokerEvent::Garbled(reason)).version == slot.version + 1,
        ingested(ingested(slot, BrokerEvent::Garbled(reason)), BrokerEvent::Sample(next)) == (
            SlotView { value: next, version: slot.version + 2 }
        ),
{
}

/// Over any run of events the worker publishes once per message and never
/// otherwise: the version moves on by the number of messages, and the slot
/// holds what the last message published.
pub proof fn law_one_publish_per_message(slot: SlotView, events: Seq<BrokerEvent>)
    ensures
        ingested_all(slot, events).version == slot.version + events.filter(
            |e: BrokerEvent| e.published().is_some(),
        ).len(),
        ingested_all(slot, events).value == match last_published(events) {
            Some(sample) => sample,
            None => slot.value,
        },
        last_published(events).is_some() <==> ingested_all(slot, events).version > slot.version,
    decreases events.len(),
{
    let message = |e: BrokerEvent| e.published().is_some();
    if events.len() == 0 {
        assert(events.filter(message).len() == 0) by {
            reveal(Seq::filter);
        }
    } else {
        law_one_publish_per_message(slot, events.drop_last());
        assert(events.filter(message) == if message(events.last()) {
            events.drop_last().filter(message).push(events.last())
        } else {
            events.drop_last().filter(message)
        }) by {
            reveal(Seq::filter);
        }
    }
}

/// Events without a message among them leave the slot as it is.
pub proof fn law_quiet_events_leave_slot(slot: SlotView, events: Seq<BrokerEvent>)
    requires
        last_published(events).is_none(),
    ensures
        ingested_all(slot, events) == slot,
    decreases events.len(),
{
    if events.len() > 0 {
        law_quiet_events_leave_slot(slot, events.drop_last());
    }
}

} // verus!
