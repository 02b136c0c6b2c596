//! The window of recent samples that a chart is drawn from: the last
//! `CAPACITY` samples received, oldest first.

use crate::sample::{HatSample, Reading};
use std::collections::VecDeque;
use vstd::prelude::*;

verus! {

/// How many samples a window keeps.
pub const CAPACITY: usize = 20;

/// The measurements of a sample that can be charted.
#[derive(Clone, Copy, Debug, PartialEq, Eq, Structural)]
pub enum Channel {
    Temperature,
    Humidity,
    RZero,
    CorrectedRZero,
    Resistance,
    Ppm,
    CorrectedPpm,
}

impl Channel {
    /// The channel's measurement in `sample`.
    pub open spec fn of(self, sample: HatSample) -> Reading {
        match self {
            Channel::Temperature => sample.temperature,
            Channel::Humidity => sample.humidity,
            Channel::RZero => sample.r_zero,
            Channel::CorrectedRZero => sample.corrected_r_zero,
            Channel::Resistance => sample.resistance,
            Channel::Ppm => sample.ppm,
            Channel::CorrectedPpm => sample.corrected_ppm,
        }
    }

    /// The channel's measurement in `sample`.
    pub fn read(self, sample: &HatSample) -> (r: Reading)
        ensures
            r == self.of(*sample),
    {
        match self {
            Channel::Temperature => sample.temperature,
            Channel::Humidity => sample.humidity,
            Channel::RZero => sample.r_zero,
            Channel::CorrectedRZero => sample.corrected_r_zero,
            Channel::Resistance => sample.resistance,
            Channel::Ppm => sample.ppm,
            Channel::CorrectedPpm => sample.corrected_ppm,
        }
    }
}

/// The last `CAPACITY` of `samples`, or all of them where they are fewer.
pub open spec fn recent(samples: Seq<HatSample>) -> Seq<HatSample> {
    if samples.len() > CAPACITY {
        samples.skip(samples.len() - CAPACITY)
    } else {
        samples
    }
}

/// A window after one more sample: the sample comes last, and the oldest one
/// leaves if the window was full.
pub open spec fn recorded(window: Seq<HatSample>, sample: HatSample) -> Seq<HatSample> {
    recent(window.push(sample))
}

/// A window after a run of samples, one after the other.
pub open spec fn recorded_all(window: Seq<HatSample>, samples: Seq<HatSample>) -> Seq<HatSample>
    decreases samples.len(),
{
    if samples.len() == 0 {
        window
    } else {
        recorded(recorded_all(window, samples.drop_last()), samples.last())
    }
}

/// The recent samples, oldest first. A window that has been recorded into
/// holds at most `CAPACITY` of them.
pub struct History {
    samples: VecDeque<HatSample>,
}

impl View for History {
    type V = Seq<HatSample>;

    closed spec fn view(&self) -> Seq<HatSample> {
        self.samples@
    }
}

impl History {
    /// An empty window.
    pub fn new() -> (history: History)
        ensures
            history@ == Seq::<HatSample>::empty(),
    {
        History { samples: VecDeque::with_capacity(CAPACITY) }
    }

    /// The number of samples in the window.
    pub fn len(&self) -> (r: usize)
        ensures
            r == self@.len(),
    {
        self.samples.len()
    }

    /// The sample at `index`, counted from the oldest, if there is one.
    pub fn get(&self, index: usize) -> (r: Option<HatSample>)
        ensures
            r == if index < self@.len() {
                Some(self@[index as int])
            } else {
                None
            },
    {
        if index < self.samples.len() {
            Some(self.samples[index])
        } else {
            None
        }
    }

    /// Adds a sample at the end; a full window first lets go of its oldest.
    pub fn record(&mut self, sample: HatSample)
        ensures
            final(self)@ == recorded(old(self)@, sample),
            final(self)@.len() <= CAPACITY,
    {
        while self.samples.len() >= CAPACITY
            invariant
                self.samples@.len() <= old(self).samples@.len(),
                old(self).samples@.len() < CAPACITY ==> self.samples@.len() == old(
                    self,
                ).samples@.len(),
                old(self).samples@.len() >= CAPACITY ==> self.samples@.len() >= CAPACITY - 1,
                self.samples@ == old(self).samples@.skip(
                    old(self).samples@.len() - self.samples@.len(),
                ),
            decreases self.samples@.len(),
        {
            let _ = self.samples.pop_front();
        }
        self.samples.push_back(sample);
        assert(self.samples@ =~= recorded(old(self).samples@, sample));
    }

    /// One channel of the window, oldest first: what a chart plots.
    pub fn series(&self, channel: Channel) -> (r: Vec<Reading>)
        ensures
            r@ == self@.map_values(|sample: HatSample| channel.of(sample)),
    {
        let mut out: Vec<Reading> = Vec::new();
        let n: usize = self.samples.len();
        let mut i: usize = 0;
        while i < n
            invariant
                0 <= i <= n,
                n == self.samples@.len(),
                out@ == self.samples@.take(i as int).map_values(
                    |sample: HatSample| channel.of(sample),
                ),
            decreases n - i,
        {
            out.push(channel.read(&self.samples[i]));
            i = i + 1;
            assert(out@ =~= self.samples@.take(i as int).map_values(
                |sample: HatSample| channel.of(sample),
            ));
        }
        assert(self.samples@.take(n as int) =~= self.samples@);
        out
    }
}

/// However many samples have been recorded into an empty window, it holds
/// the last `CAPACITY` of them in the order in which they came, and all of
/// them while they are fewer.
pub proof fn law_window_keeps_most_recent(samples: Seq<HatSample>)
    ensures
        recorded_all(Seq::empty(), samples) == recent(samples),
        recorded_all(Seq::empty(), samples).len() <= CAPACITY,
    decreases samples.len(),
{
    if samples.len() > 0 {
        law_window_keeps_most_recent(samples.drop_last());
        assert(recent(recent(samples.drop_last()).push(samples.last())) =~= recent(samples));
    }
}

} // verus!
