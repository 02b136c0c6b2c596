//! The relay handler: the session of one streaming client, as a machine with
//! the two states `Open` and `Closed`.
//!
//! The session's loop waits for two things at once, a signal from the client
//! and a change of the slot, and calls `step` with what it found. `step` says
//! what to do; after a send the loop reports how it went with `settle`. A
//! handler that has closed stays closed: a client that wants more connects
//! again and gets a fresh handler.

use crate::ingest::{
    ingested_all, last_published, law_one_publish_per_message, law_quiet_events_leave_slot,
    BrokerEvent,
};
use crate::sample::HatSample;
use crate::slot::{BroadcastSlot, SlotReader, SlotView};
use vstd::prelude::*;

verus! {

/// The two states of a session.
#[derive(Clone, Copy, Debug, PartialEq, Eq, Structural)]
pub enum RelayState {
    Open,
    Closed,
}

/// What the session's loop is to do next.
#[derive(Clone, Copy, Debug, PartialEq, Eq, Structural)]
pub enum RelayAction {
    /// Encode this sample and send it as one text message, then report the
    /// outcome with `settle`.
    Send(HatSample),
    /// Nothing is pending: wait for the client or the slot.
    Wait,
    /// The session is over: drop the connection.
    Close,
}

/// How an attempt to send went.
#[derive(Clone, Copy, Debug, PartialEq, Eq, Structural)]
pub enum SendOutcome {
    /// The message is on its way.
    Delivered,
    /// The sample could not be encoded, so nothing was sent.
    NotEncoded,
    /// The connection refused the message.
    Failed,
}

/// A handler as the contracts see it.
pub struct RelayView {
    pub state: RelayState,
    /// The version of the sample that was handed out for sending last.
    pub seen: nat,
}

impl RelayView {
    /// A session that has just been accepted.
    pub open spec fn fresh() -> RelayView {
        RelayView { state: RelayState::Open, seen: 0 }
    }

    /// The handler after one step, and the action that the step asks for.
    ///
    /// A closed handler only ever says `Close`. An open one closes on any
    /// signal from the client, whatever the slot holds; without a signal it
    /// hands out the current sample if that is newer than the last one it
    /// handed out, and waits otherwise.
    pub open spec fn step(self, client_signal: bool, slot: SlotView) -> (RelayView, RelayAction) {
        if self.state == RelayState::Closed {
            (self, RelayAction::Close)
        } else if client_signal {
            (RelayView { state: RelayState::Closed, seen: self.seen }, RelayAction::Close)
        } else {
            match slot.changed_since(self.seen) {
                Some((value, version)) => (
                    RelayView { state: RelayState::Open, seen: version },
                    RelayAction::Send(value),
                ),
                None => (self, RelayAction::Wait),
            }
        }
    }

    /// The handler after it has been told how a send went: a failed send
    /// closes the session, a sample that could not be encoded is skipped and
    /// the session stays as it is.
    pub open spec fn settle(self, outcome: SendOutcome) -> RelayView {
        if outcome == SendOutcome::Failed {
            RelayView { state: RelayState::Closed, seen: self.seen }
        } else {
            self
        }
    }

    /// The handler after a run of steps, each with its own signal and its own
    /// state of the slot.
    pub open spec fn run(self, inputs: Seq<(bool, SlotView)>) -> RelayView
        decreases inputs.len(),
    {
        if inputs.len() == 0 {
            self
        } else {
            self.run(inputs.drop_last()).step(inputs.last().0, inputs.last().1).0
        }
    }

    /// The actions that a run of steps asks for, in order.
    pub open spec fn actions(self, inputs: Seq<(bool, SlotView)>) -> Seq<RelayAction>
        decreases inputs.len(),
    {
        if inputs.len() == 0 {
            Seq::empty()
        } else {
            self.actions(inputs.drop_last()).push(
                self.run(inputs.drop_last()).step(inputs.last().0, inputs.last().1).1,
            )
        }
    }
}

/// The session of one client.
#[derive(Clone, Copy, Debug)]
pub struct RelayHandler {
    state: RelayState,
    reader: SlotReader,
}

impl View for RelayHandler {
    type V = RelayView;

    closed spec fn view(&self) -> RelayView {
        RelayView { state: self.state, seen: self.reader@ }
    }
}

impl RelayHandler {
    /// The handler of a connection that has just been accepted: open, and
    /// with nothing handed out yet, so that the first sample ever published
    /// or the one current by then is sent at once.
    pub fn new() -> (handler: RelayHandler)
        ensures
            handler@ == RelayView::fresh(),
    {
        RelayHandler { state: RelayState::Open, reader: SlotReader::new() }
    }

    /// The state of the session.
    pub fn state(&self) -> (r: RelayState)
        ensures
            r == self@.state,
    {
        self.state
    }

    /// Whether the session is still open.
    pub fn is_open(&self) -> (r: bool)
        ensures
            r == (self@.state == RelayState::Open),
    {
        match self.state {
            RelayState::Open => true,
            RelayState::Closed => false,
        }
    }

    /// The version of the sample that was handed out for sending last.
    pub fn last_sent(&self) -> (r: u64)
        ensures
            r == self@.seen,
    {
        self.reader.last_seen()
    }

    /// One turn of the session's loop. `client_signal` says whether anything
    /// has come from the client: a frame of any content, a close, or an
    /// error. Where the client has signalled and the slot has changed as
    /// well, the signal wins and the pending sample is not sent.
    pub fn step(&mut self, client_signal: bool, slot: &BroadcastSlot) -> (action: RelayAction)
        ensures
            (final(self)@, action) == old(self)@.step(client_signal, slot@),
    {
        match self.state {
            RelayState::Closed => RelayAction::Close,
            RelayState::Open => {
                if client_signal {
                    self.state = RelayState::Closed;
                    RelayAction::Close
                } else {
                    match self.reader.observe(slot) {
                        Some(value) => RelayAction::Send(value),
                        None => RelayAction::Wait,
                    }
                }
            },
        }
    }

    /// Takes note of how the send that `step` asked for went.
    pub fn settle(&mut self, outcome: SendOutcome)
        ensures
            final(self)@ == old(self)@.settle(outcome),
    {
        match outcome {
            SendOutcome::Failed => {
                self.state = RelayState::Closed;
            },
            SendOutcome::Delivered => {},
            SendOutcome::NotEncoded => {},
        }
    }
}

/// Tie-break: when the client has signalled, an open handler closes without
/// sending, also where a sample is pending for it; its cursor stays where it
/// was.
pub proof fn law_termination_wins(handler: RelayView, slot: SlotView)
    requires
        handler.state == RelayState::Open,
    ensures
        handler.step(true, slot).1 == RelayAction::Close,
        handler.step(true, slot).0.state == RelayState::Closed,
        handler.step(true, slot).0.seen == handler.seen,
{
}

/// Without a signal from the client an open handler sends exactly when the
/// slot has moved past what it handed out last, and then it sends the
/// current sample, whatever was published in between.
pub proof fn law_sends_latest(handler: RelayView, slot: SlotView)
    requires
        handler.state == RelayState::Open,
    ensures
        slot.version > handler.seen ==> handler.step(false, slot) == (
            RelayView { state: RelayState::Open, seen: slot.version },
            RelayAction::Send(slot.value),
        ),
        slot.version <= handler.seen ==> handler.step(false, slot) == (handler, RelayAction::Wait),
{
}

/// A fresh handler is sent the current sample on its first turn as soon as
/// anything has been published.
pub proof fn law_fresh_handler_catches_up(slot: SlotView)
    requires
        slot.version > 0,
    ensures
        RelayView::fresh().step(false, slot).1 == RelayAction::Send(slot.value),
{
}

/// `Closed` is terminal: no step and no outcome of a send reopens a closed
/// handler, and a closed handler asks for nothing but `Close`.
pub proof fn law_closed_is_terminal(handler: RelayView, inputs: Seq<(bool, SlotView)>)
    requires
        handler.state == RelayState::Closed,
    ensures
        handler.run(inputs) == handler,
        handler.actions(inputs).len() == inputs.len(),
        forall|i: int|
            0 <= i < inputs.len() ==> #[trigger] handler.actions(inputs)[i] == RelayAction::Close,
        forall|outcome: SendOutcome| #[trigger] handler.settle(outcome) == handler,
    decreases inputs.len(),
{
    if inputs.len() > 0 {
        law_closed_is_terminal(handler, inputs.drop_last());
    }
}

/// A handler never sends after it has observed termination: in any run, from
/// the first turn with a signal from the client on, every action is `Close`.
pub proof fn law_no_send_after_termination(
    handler: RelayView,
    inputs: Seq<(bool, SlotView)>,
    signalled: int,
)
    requires
        0 <= signalled < inputs.len(),
        inputs[signalled].0,
    ensures
        handler.run(inputs).state == RelayState::Closed,
        handler.actions(inputs).len() == inputs.len(),
        forall|i: int|
            signalled <= i < inputs.len() ==> #[trigger] handler.actions(inputs)[i]
                == RelayAction::Close,
    decreases inputs.len(),
{
    let before = inputs.drop_last();
    law_actions_len(handler, inputs);
    if signalled == inputs.len() - 1 {
    } else {
        law_no_send_after_termination(handler, before, signalled);
    }
}

/// A run asks for one action per turn.
pub proof fn law_actions_len(handler: RelayView, inputs: Seq<(bool, SlotView)>)
    ensures
        handler.actions(inputs).len() == inputs.len(),
    decreases inputs.len(),
{
    if inputs.len() > 0 {
        law_actions_len(handler, inputs.drop_last());
    }
}

/// What a handler hands out for sending only gets newer: over any run its
/// cursor never moves back.
pub proof fn law_sent_versions_increase(handler: RelayView, inputs: Seq<(bool, SlotView)>)
    ensures
        handler.seen <= handler.run(inputs).seen,
    decreases inputs.len(),
{
    if inputs.len() > 0 {
        law_sent_versions_increase(handler, inputs.drop_last());
    }
}

/// From broker to client: whatever the worker has handled since an open
/// handler last looked, the handler's next turn without a signal from the
/// client sends what the last message published, a decoded sample or the
/// all-zero one, and nothing older; if no message was among the events, the
/// handler does what it would have done before them.
pub proof fn law_relay_delivers_latest(
    handler: RelayView,
    slot: SlotView,
    events: Seq<BrokerEvent>,
)
    requires
        handler.state == RelayState::Open,
        handler.seen <= slot.version,
    ensures
        last_published(events) matches Some(sample) ==> handler.step(
            false,
            ingested_all(slot, events),
        ).1 == RelayAction::Send(sample),
        last_published(events).is_none() ==> handler.step(false, ingested_all(slot, events))
            == handler.step(false, slot),
{
    law_one_publish_per_message(slot, events);
    if last_published(events).is_none() {
        law_quiet_events_leave_slot(slot, events);
    }
}

} // verus!
