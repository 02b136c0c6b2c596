//! The broadcast slot: one current sample and a version that counts the
//! publishes. A single writer replaces the sample; any number of readers, each
//! with a cursor of its own, pick up the latest sample whenever the version
//! has passed their cursor. Samples published in between are never replayed.

use crate::sample::HatSample;
use vstd::prelude::*;

verus! {

/// What a slot holds, with the version as a mathematical number.
pub struct SlotView {
    pub value: HatSample,
    pub version: nat,
}

impl SlotView {
    /// A slot that nothing has been published into yet.
    pub open spec fn initial(value: HatSample) -> SlotView {
        SlotView { value, version: 0 }
    }

    /// The slot after one publish.
    pub open spec fn publish(self, sample: HatSample) -> SlotView {
        SlotView { value: sample, version: self.version + 1 }
    }

    /// The slot after publishing `samples` one after the other.
    pub open spec fn publish_all(self, samples: Seq<HatSample>) -> SlotView
        decreases samples.len(),
    {
        if samples.len() == 0 {
            self
        } else {
            self.publish_all(samples.drop_last()).publish(samples.last())
        }
    }

    /// What a reader with the cursor `seen` is handed: the current sample and
    /// its version once the version has passed the cursor, nothing before.
    pub open spec fn changed_since(self, seen: nat) -> Option<(HatSample, nat)> {
        if self.version > seen {
            Some((self.value, self.version))
        } else {
            None
        }
    }

    /// The cursor of a reader that had `seen` and has now looked at the slot.
    pub open spec fn cursor_after(self, seen: nat) -> nat {
        if self.version > seen {
            self.version
        } else {
            seen
        }
    }
}

/// The latest sample and the number of publishes so far.
#[derive(Clone, Copy, Debug)]
pub struct BroadcastSlot {
    value: HatSample,
    version: u64,
}

impl View for BroadcastSlot {
    type V = SlotView;

    closed spec fn view(&self) -> SlotView {
        SlotView { value: self.value, version: self.version as nat }
    }
}

impl BroadcastSlot {
    /// A slot that holds `initial` at version zero.
    pub fn new(initial: HatSample) -> (slot: BroadcastSlot)
        ensures
            slot@ == SlotView::initial(initial),
    {
        BroadcastSlot { value: initial, version: 0 }
    }

    /// Replaces the current sample and moves the version on by one.
    ///
    /// The version is a `u64`; a slot that has been published into
    /// `u64::MAX` times takes no further sample.
    pub fn publish(&mut self, sample: HatSample)
        requires
            old(self)@.version < u64::MAX,
        ensures
            final(self)@ == old(self)@.publish(sample),
    {
        self.value = sample;
        self.version = self.version + 1;
    }

    /// The current sample and its version.
    pub fn current(&self) -> (r: (HatSample, u64))
        ensures
            r.0 == self@.value,
            r.1 == self@.version,
    {
        (self.value, self.version)
    }

    /// The number of publishes so far.
    pub fn version(&self) -> (r: u64)
        ensures
            r == self@.version,
    {
        self.version
    }

    /// The step a waiting reader takes each time it is woken: the current
    /// sample and version if the version has passed `last_seen`, `None` if the
    /// reader has to go on waiting.
    pub fn poll_change(&self, last_seen: u64) -> (r: Option<(HatSample, u64)>)
        ensures
            match r {
                Some((value, version)) => self@.changed_since(last_seen as nat) == Some(
                    (value, version as nat),
                ),
                None => self@.changed_since(last_seen as nat).is_none(),
            },
    {
        if self.version > last_seen {
            Some((self.value, self.version))
        } else {
            None
        }
    }
}

/// A reader's cursor: the version of the sample it was handed last, zero for
/// a reader that has been handed none.
#[derive(Clone, Copy, Debug)]
pub struct SlotReader {
    seen: u64,
}

impl View for SlotReader {
    type V = nat;

    closed spec fn view(&self) -> nat {
        self.seen as nat
    }
}

impl SlotReader {
    /// A reader that has seen nothing: any published sample is new to it.
    pub fn new() -> (reader: SlotReader)
        ensures
            reader@ == 0,
    {
        SlotReader { seen: 0 }
    }

    /// The version of the sample that the reader was handed last.
    pub fn last_seen(&self) -> (r: u64)
        ensures
            r == self@,
    {
        self.seen
    }

    /// Hands the reader the current sample if it is newer than the last one it
    /// was handed, and moves the cursor to that sample's version.
    pub fn observe(&mut self, slot: &BroadcastSlot) -> (r: Option<HatSample>)
        ensures
            match r {
                Some(value) => slot@.changed_since(old(self)@) == Some((value, slot@.version)),
                None => slot@.changed_since(old(self)@).is_none(),
            },
            final(self)@ == slot@.cursor_after(old(self)@),
    {
        match slot.poll_change(self.seen) {
            Some((value, version)) => {
                self.seen = version;
                Some(value)
            },
            None => None,
        }
    }
}

/// The cursor of a reader that starts at `seen` and looks at the slot each
/// time it has reached one of the states of `history`, in order.
pub open spec fn follow(seen: nat, history: Seq<SlotView>) -> nat
    decreases history.len(),
{
    if history.len() == 0 {
        seen
    } else {
        history.last().cursor_after(follow(seen, history.drop_last()))
    }
}

/// A run of publishes moves the version on by their number, and leaves the
/// last of them as the current sample.
pub proof fn law_publish_all(slot: SlotView, samples: Seq<HatSample>)
    ensures
        slot.publish_all(samples).version == slot.version + samples.len(),
        samples.len() > 0 ==> slot.publish_all(samples).value == samples.last(),
        samples.len() == 0 ==> slot.publish_all(samples) == slot,
    decreases samples.len(),
{
    if samples.len() > 0 {
        law_publish_all(slot, samples.drop_last());
    }
}

/// Coalescing: a reader that was not looking while several samples were
/// published is handed, when it looks next, the last of them only, at the
/// version that counts them all.
pub proof fn law_coalescing(slot: SlotView, seen: nat, samples: Seq<HatSample>)
    requires
        seen <= slot.version,
        samples.len() > 0,
    ensures
        slot.publish_all(samples).changed_since(seen) == Some(
            (samples.last(), slot.version + samples.len()),
        ),
        slot.publish_all(samples).cursor_after(seen) == slot.version + samples.len(),
{
    law_publish_all(slot, samples);
}

/// A late joiner reads the latest sample: whatever was published before it
/// came, the current value is the last sample published, and a reader that
/// has seen nothing is handed exactly that one.
pub proof fn law_late_joiner(slot: SlotView, samples: Seq<HatSample>)
    requires
        samples.len() > 0,
    ensures
        slot.publish_all(samples).value == samples.last(),
        slot.publish_all(samples).changed_since(0) == Some(
            (samples.last(), slot.version + samples.len()),
        ),
{
    law_publish_all(slot, samples);
}

/// Whatever a reader is handed is newer than what it had, and looking at a
/// slot never moves its cursor back.
pub proof fn law_handed_is_newer(slot: SlotView, seen: nat)
    ensures
        slot.cursor_after(seen) >= seen,
        slot.changed_since(seen) matches Some((value, version)) ==> version > seen && version
            == slot.cursor_after(seen) && value == slot.value,
        slot.changed_since(seen).is_none() ==> slot.cursor_after(seen) == seen,
{
}

/// Over any history, and however often the reader looks, its cursor never
/// falls below the cursor it had after an earlier part of that history.
pub proof fn law_cursor_never_goes_back(seen: nat, history: Seq<SlotView>, earlier: int)
    requires
        0 <= earlier <= history.len(),
    ensures
        seen <= follow(seen, history.take(earlier)) <= follow(seen, history),
    decreases history.len(),
{
    if earlier == history.len() {
        assert(history.take(earlier) =~= history);
        if history.len() > 0 {
            law_cursor_never_goes_back(seen, history.drop_last(), history.len() - 1);
        }
    } else {
        assert(history.drop_last().take(earlier) =~= history.take(earlier));
        law_cursor_never_goes_back(seen, history.drop_last(), earlier);
    }
}

/// Convergence: two readers that have both fallen behind the slot, by however
/// much, are handed the same sample at the same version and end at the same
/// cursor.
pub proof fn law_readers_converge(slot: SlotView, seen_a: nat, seen_b: nat)
    requires
        seen_a < slot.version,
        seen_b < slot.version,
    ensures
        slot.changed_since(seen_a) == Some((slot.value, slot.version)),
        slot.changed_since(seen_b) == slot.changed_since(seen_a),
        slot.cursor_after(seen_a) == slot.cursor_after(seen_b),
{
}

/// Whether every state of `history` is a state that the slot was in before
/// it came to `last`, or `last` itself: versions only grow.
pub open spec fn leads_to(history: Seq<SlotView>, last: SlotView) -> bool {
    forall|i: int| 0 <= i < history.len() ==> (#[trigger] history[i]).version <= last.version
}

/// A reader never gets ahead of the slot: its cursor stays at or below the
/// version of any state that the states it has looked at lead to.
pub proof fn law_cursor_stays_behind(seen: nat, history: Seq<SlotView>, last: SlotView)
    requires
        seen <= last.version,
        leads_to(history, last),
    ensures
        follow(seen, history) <= last.version,
    decreases history.len(),
{
    if history.len() > 0 {
        assert(history.last() == history[history.len() - 1]);
        assert forall|i: int| 0 <= i < history.drop_last().len() implies (
        #[trigger] history.drop_last()[i]).version <= last.version by {
            assert(history.drop_last()[i] == history[i]);
        }
        law_cursor_stays_behind(seen, history.drop_last(), last);
    }
}

/// Convergence over histories: two readers that came at different times and
/// woke at different moments of one slot's life, and so looked at different
/// states of it, are at the same cursor, the version of the final state, once
/// each has looked at that state; and the last sample that each was handed,
/// then or before, is the final one.
pub proof fn law_readers_reach_latest(
    seen_a: nat,
    woke_a: Seq<SlotView>,
    seen_b: nat,
    woke_b: Seq<SlotView>,
    last: SlotView,
)
    requires
        seen_a <= last.version,
        seen_b <= last.version,
        leads_to(woke_a, last),
        leads_to(woke_b, last),
    ensures
        follow(seen_a, woke_a.push(last)) == last.version,
        follow(seen_b, woke_b.push(last)) == last.version,
        follow(seen_a, woke_a) < last.version ==> last.changed_since(follow(seen_a, woke_a))
            == Some((last.value, last.version)),
        follow(seen_b, woke_b) < last.version ==> last.changed_since(follow(seen_b, woke_b))
            == Some((last.value, last.version)),
{
    law_cursor_stays_behind(seen_a, woke_a, last);
    law_cursor_stays_behind(seen_b, woke_b, last);
    assert(woke_a.push(last).drop_last() =~= woke_a);
    assert(woke_b.push(last).drop_last() =~= woke_b);
}

} // verus!
