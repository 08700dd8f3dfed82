//! The pump: a task that moves frames one way between the wire and a queue.
//!
//! A session runs two pumps. The read pump fetches frames from the wire and
//! delivers them to the inbound queue; the write pump fetches messages from
//! the outbound queue and delivers them to the wire. Both follow the same
//! rules: fetch one, deliver it, and stop for good at the first failure on
//! either side. While a delivery is outstanding nothing else is fetched, so a
//! full queue holds its producer back.

use crate::message::{Message, MessageView};
use vstd::prelude::*;

verus! {

/// Which way a pump moves frames.
#[derive(Clone, Copy, Debug, PartialEq, Eq)]
pub enum Direction {
    /// From the wire to the inbound queue: the read pump.
    Inbound,
    /// From the outbound queue to the wire: the write pump.
    Outbound,
}

/// Why a task of the client stopped.
#[derive(Clone, Copy, Debug, PartialEq, Eq)]
pub enum StopReason {
    /// Receiving from the wire failed.
    ReadFailed,
    /// Sending on the wire failed.
    WriteFailed,
    /// The peer ended the stream.
    EndOfStream,
    /// The queue's other side is gone.
    QueueClosed,
    /// The process is shutting down.
    ShutdownRequested,
    /// No sequence number is left to give.
    CounterExhausted,
}

/// Where a pump stands between two operations.
#[derive(Clone, Copy, Debug, PartialEq, Eq)]
pub enum PumpPhase {
    /// Waiting for the next frame from the source.
    Fetching,
    /// Waiting for the sink to take the frame last fetched.
    Delivering,
    /// Stopped for good.
    Stopped(StopReason),
}

/// The outcome of the operation a pump was waiting for.
#[derive(Debug, PartialEq, Eq)]
pub enum PumpEvent {
    /// The source yielded a frame.
    Fetched(Message),
    /// The source reported an error.
    SourceFailed,
    /// The source is closed and will yield nothing more.
    SourceClosed,
    /// The sink took the frame.
    Delivered,
    /// The sink refused the frame and will take nothing more.
    SinkFailed,
    /// The session is being torn down.
    Cancelled,
}

/// What the driver of a pump does next.
#[derive(Debug, PartialEq, Eq)]
pub enum PumpAction {
    /// Fetch the next frame from the source.
    Fetch,
    /// Hand this frame to the sink, waiting for room if there is none.
    Deliver(Message),
    /// End the task.
    Stop(StopReason),
    /// The event belongs to no operation that is outstanding: go on waiting.
    Hold,
}

/// Mathematical content of a [`PumpEvent`].
pub enum PumpEventView {
    Fetched(MessageView),
    SourceFailed,
    SourceClosed,
    Delivered,
    SinkFailed,
    Cancelled,
}

/// Mathematical content of a [`PumpAction`].
pub enum PumpActionView {
    Fetch,
    Deliver(MessageView),
    Stop(StopReason),
    Hold,
}

impl View for PumpEvent {
    type V = PumpEventView;

    open spec fn view(&self) -> PumpEventView {
        match self {
            PumpEvent::Fetched(message) => PumpEventView::Fetched(message@),
            PumpEvent::SourceFailed => PumpEventView::SourceFailed,
            PumpEvent::SourceClosed => PumpEventView::SourceClosed,
            PumpEvent::Delivered => PumpEventView::Delivered,
            PumpEvent::SinkFailed => PumpEventView::SinkFailed,
            PumpEvent::Cancelled => PumpEventView::Cancelled,
        }
    }
}

impl View for PumpAction {
    type V = PumpActionView;

    open spec fn view(&self) -> PumpActionView {
        match self {
            PumpAction::Fetch => PumpActionView::Fetch,
            PumpAction::Deliver(message) => PumpActionView::Deliver(message@),
            PumpAction::Stop(reason) => PumpActionView::Stop(*reason),
            PumpAction::Hold => PumpActionView::Hold,
        }
    }
}

/// One pump of a session.
#[derive(Clone, Copy, Debug, PartialEq, Eq)]
pub struct Pump {
    /// Which way the pump moves frames.
    pub direction: Direction,
    /// Where the pump stands.
    pub phase: PumpPhase,
}

/// The reason recorded when the source of a pump reports an error.
pub open spec fn source_failure(direction: Direction) -> StopReason {
    match direction {
        Direction::Inbound => StopReason::ReadFailed,
        Direction::Outbound => StopReason::QueueClosed,
    }
}

/// The reason recorded when the source of a pump is closed.
pub open spec fn source_closure(direction: Direction) -> StopReason {
    match direction {
        Direction::Inbound => StopReason::EndOfStream,
        Direction::Outbound => StopReason::QueueClosed,
    }
}

/// The reason recorded when the sink of a pump refuses a frame.
pub open spec fn sink_failure(direction: Direction) -> StopReason {
    match direction {
        Direction::Inbound => StopReason::QueueClosed,
        Direction::Outbound => StopReason::WriteFailed,
    }
}

/// The rules of a pump: the phase it enters and the action it asks for when
/// `event` arrives in `pump.phase`.
pub open spec fn pump_step(pump: Pump, event: PumpEventView) -> (Pump, PumpActionView) {
    let stop = |reason: StopReason|
        (
            Pump { direction: pump.direction, phase: PumpPhase::Stopped(reason) },
            PumpActionView::Stop(reason),
        );
    match (pump.phase, event) {
        (PumpPhase::Stopped(reason), _) => (pump, PumpActionView::Stop(reason)),
        (_, PumpEventView::Cancelled) => stop(StopReason::ShutdownRequested),
        (PumpPhase::Fetching, PumpEventView::Fetched(message)) => (
            Pump { direction: pump.direction, phase: PumpPhase::Delivering },
            PumpActionView::Deliver(message),
        ),
        (PumpPhase::Fetching, PumpEventView::SourceFailed) => stop(source_failure(pump.direction)),
        (PumpPhase::Fetching, PumpEventView::SourceClosed) => stop(source_closure(pump.direction)),
        (PumpPhase::Delivering, PumpEventView::Delivered) => (
            Pump { direction: pump.direction, phase: PumpPhase::Fetching },
            PumpActionView::Fetch,
        ),
        (PumpPhase::Delivering, PumpEventView::SinkFailed) => stop(sink_failure(pump.direction)),
        _ => (pump, PumpActionView::Hold),
    }
}

impl Pump {
    /// A pump at the start of a session: about to fetch its first frame.
    pub open spec fn starting(direction: Direction) -> Pump {
        Pump { direction, phase: PumpPhase::Fetching }
    }

    /// The read pump of a new session. Its driver begins by fetching.
    pub fn read() -> (pump: Pump)
        ensures
            pump == Pump::starting(Direction::Inbound),
    {
        Pump { direction: Direction::Inbound, phase: PumpPhase::Fetching }
    }

    /// The write pump of a new session. Its driver begins by fetching.
    pub fn write() -> (pump: Pump)
        ensures
            pump == Pump::starting(Direction::Outbound),
    {
        Pump { direction: Direction::Outbound, phase: PumpPhase::Fetching }
    }

    /// Whether the pump has stopped for good.
    pub fn is_stopped(&self) -> (stopped: bool)
        ensures
            stopped == (self.phase is Stopped),
    {
        match self.phase {
            PumpPhase::Stopped(_) => true,
            _ => false,
        }
    }

    fn stop_with(&mut self, reason: StopReason) -> (action: PumpAction)
        ensures
            final(self).direction == old(self).direction,
            final(self).phase == PumpPhase::Stopped(reason),
            action == PumpAction::Stop(reason),
    {
        self.phase = PumpPhase::Stopped(reason);
        PumpAction::Stop(reason)
    }

    /// Takes the outcome of the operation the pump was waiting for and
    /// answers with the next one, as [`pump_step`] rules.
    pub fn step(&mut self, event: PumpEvent) -> (action: PumpAction)
        ensures
            (*final(self), action@) == pump_step(*old(self), event@),
    {
        match self.phase {
            PumpPhase::Stopped(reason) => PumpAction::Stop(reason),
            PumpPhase::Fetching => match event {
                PumpEvent::Cancelled => self.stop_with(StopReason::ShutdownRequested),
                PumpEvent::Fetched(message) => {
                    self.phase = PumpPhase::Delivering;
                    PumpAction::Deliver(message)
                },
                PumpEvent::SourceFailed => match self.direction {
                    Direction::Inbound => self.stop_with(StopReason::ReadFailed),
                    Direction::Outbound => self.stop_with(StopReason::QueueClosed),
                },
                PumpEvent::SourceClosed => match self.direction {
                    Direction::Inbound => self.stop_with(StopReason::EndOfStream),
                    Direction::Outbound => self.stop_with(StopReason::QueueClosed),
                },
                _ => PumpAction::Hold,
            },
            PumpPhase::Delivering => match event {
                PumpEvent::Cancelled => self.stop_with(StopReason::ShutdownRequested),
                PumpEvent::Delivered => {
                    self.phase = PumpPhase::Fetching;
                    PumpAction::Fetch
                },
                PumpEvent::SinkFailed => match self.direction {
                    Direction::Inbound => self.stop_with(StopReason::QueueClosed),
                    Direction::Outbound => self.stop_with(StopReason::WriteFailed),
                },
                _ => PumpAction::Hold,
            },
        }
    }
}

/// The rules applied to a whole sequence of events, one after the other: the
/// pump at the end and the actions asked for on the way, in order.
pub open spec fn pump_run(pump: Pump, events: Seq<PumpEventView>) -> (Pump, Seq<PumpActionView>)
    decreases events.len(),
{
    if events.len() == 0 {
        (pump, Seq::empty())
    } else {
        let (next, action) = pump_step(pump, events.first());
        let (last, rest) = pump_run(next, events.drop_first());
        (last, seq![action] + rest)
    }
}

/// The frames that a sequence of actions hands to the sink, in order.
pub open spec fn deliveries(actions: Seq<PumpActionView>) -> Seq<MessageView>
    decreases actions.len(),
{
    if actions.len() == 0 {
        Seq::empty()
    } else {
        let rest = deliveries(actions.drop_first());
        match actions.first() {
            PumpActionView::Deliver(message) => seq![message] + rest,
            _ => rest,
        }
    }
}

/// The events of an undisturbed relay: each frame is fetched and then taken
/// by the sink before the next one arrives.
pub open spec fn relay_events(frames: Seq<MessageView>) -> Seq<PumpEventView>
    decreases frames.len(),
{
    if frames.len() == 0 {
        Seq::empty()
    } else {
        seq![PumpEventView::Fetched(frames.first()), PumpEventView::Delivered] + relay_events(
            frames.drop_first(),
        )
    }
}

/// Running a pump over one event and then over the rest is running it over
/// both.
pub proof fn lemma_pump_run_unfold(pump: Pump, event: PumpEventView, rest: Seq<PumpEventView>)
    ensures
        pump_run(pump, seq![event] + rest) == (
            pump_run(pump_step(pump, event).0, rest).0,
            seq![pump_step(pump, event).1] + pump_run(pump_step(pump, event).0, rest).1,
        ),
{
    let events = seq![event] + rest;
    assert(events.first() == event);
    assert(events.drop_first() =~= rest);
}

/// What a sequence of actions delivers is what its first action delivers,
/// followed by what the others deliver.
pub proof fn lemma_deliveries_unfold(action: PumpActionView, rest: Seq<PumpActionView>)
    ensures
        deliveries(seq![action] + rest) == match action {
            PumpActionView::Deliver(message) => seq![message] + deliveries(rest),
            _ => deliveries(rest),
        },
{
    let actions = seq![action] + rest;
    assert(actions.first() == action);
    assert(actions.drop_first() =~= rest);
}

/// Order is preserved across a pump. For every sequence of frames that the
/// source yields before it fails or closes, each taken by the sink in turn,
/// the pump hands the sink exactly those frames, in the order in which they
/// came, and then stops for good.
pub proof fn lemma_pump_relays_in_order(
    direction: Direction,
    frames: Seq<MessageView>,
    ending: PumpEventView,
)
    requires
        ending is SourceFailed || ending is SourceClosed,
    ensures
        deliveries(pump_run(Pump::starting(direction), relay_events(frames).push(ending)).1)
            == frames,
        pump_run(Pump::starting(direction), relay_events(frames).push(ending)).0.phase is Stopped,
    decreases frames.len(),
{
    let start = Pump::starting(direction);
    let events = relay_events(frames).push(ending);
    if frames.len() == 0 {
        let none = Seq::<PumpEventView>::empty();
        assert(events =~= seq![ending] + none);
        lemma_pump_run_unfold(start, ending, none);
        let stopped = pump_step(start, ending);
        assert(pump_run(stopped.0, none).1 =~= Seq::empty());
        lemma_deliveries_unfold(stopped.1, Seq::empty());
        assert(deliveries(Seq::<PumpActionView>::empty()) =~= Seq::empty());
        assert(frames =~= Seq::empty());
    } else {
        let first = frames.first();
        let later = frames.drop_first();
        let tail = relay_events(later).push(ending);
        lemma_pump_relays_in_order(direction, later, ending);
        assert(events =~= seq![PumpEventView::Fetched(first)] + (seq![PumpEventView::Delivered]
            + tail));
        lemma_pump_run_unfold(
            start,
            PumpEventView::Fetched(first),
            seq![PumpEventView::Delivered] + tail,
        );
        let delivering = pump_step(start, PumpEventView::Fetched(first)).0;
        lemma_pump_run_unfold(delivering, PumpEventView::Delivered, tail);
        assert(pump_step(delivering, PumpEventView::Delivered).0 == start);
        let after = pump_run(start, tail);
        lemma_deliveries_unfold(PumpActionView::Fetch, after.1);
        lemma_deliveries_unfold(
            PumpActionView::Deliver(first),
            seq![PumpActionView::Fetch] + after.1,
        );
        assert(frames =~= seq![first] + later);
    }
}

/// A sink that has no room holds the pump back. While a delivery is
/// outstanding the pump takes up nothing new: until the sink answers or the
/// session is torn down it holds on, hands the sink no second frame, and
/// keeps waiting for the frame in flight to be taken.
pub proof fn lemma_pump_waits_for_sink(direction: Direction, events: Seq<PumpEventView>)
    requires
        forall|i: int|
            0 <= i < events.len() ==> !(events[i] is Delivered) && !(events[i] is SinkFailed)
                && !(events[i] is Cancelled),
    ensures
        pump_run(Pump { direction, phase: PumpPhase::Delivering }, events) == (
            Pump { direction, phase: PumpPhase::Delivering },
            Seq::new(events.len(), |i: int| PumpActionView::Hold),
        ),
        pump_step(Pump { direction, phase: PumpPhase::Delivering }, PumpEventView::Delivered) == (
            Pump { direction, phase: PumpPhase::Fetching },
            PumpActionView::Fetch,
        ),
    decreases events.len(),
{
    let waiting = Pump { direction, phase: PumpPhase::Delivering };
    if events.len() > 0 {
        let later = events.drop_first();
        assert(events.first() == events[0]);
        assert forall|i: int| 0 <= i < later.len() implies !(later[i] is Delivered) && !(
        later[i] is SinkFailed) && !(later[i] is Cancelled) by {
            assert(later[i] == events[i + 1]);
        }
        lemma_pump_waits_for_sink(direction, later);
    }
    assert(pump_run(waiting, events).1 =~= Seq::new(events.len(), |i: int| PumpActionView::Hold));
}

/// A pump that was told to stop stops at once and for good: in every phase
/// it answers a cancellation by stopping, and once stopped it answers every
/// event by stopping, for the reason it first stopped for.
pub proof fn lemma_pump_stop_is_final(pump: Pump, reason: StopReason, events: Seq<PumpEventView>)
    ensures
        pump_step(pump, PumpEventView::Cancelled).0.phase is Stopped,
        pump_step(pump, PumpEventView::Cancelled).1 is Stop,
        pump_run(Pump { direction: pump.direction, phase: PumpPhase::Stopped(reason) }, events)
            == (
            Pump { direction: pump.direction, phase: PumpPhase::Stopped(reason) },
            Seq::new(events.len(), |i: int| PumpActionView::Stop(reason)),
        ),
    decreases events.len(),
{
    let stopped = Pump { direction: pump.direction, phase: PumpPhase::Stopped(reason) };
    if events.len() > 0 {
        lemma_pump_stop_is_final(pump, reason, events.drop_first());
    }
    assert(pump_run(stopped, events).1 =~= Seq::new(
        events.len(),
        |i: int| PumpActionView::Stop(reason),
    ));
}

/// A relay that has not ended goes on. For every sequence of frames that the
/// source has yielded so far, each taken by the sink in turn, the pump has
/// handed the sink exactly those frames, in the order in which they came,
/// and is about to fetch the next one.
pub proof fn lemma_pump_relay_goes_on(direction: Direction, frames: Seq<MessageView>)
    ensures
        pump_run(Pump::starting(direction), relay_events(frames)).0 == Pump::starting(direction),
        deliveries(pump_run(Pump::starting(direction), relay_events(frames)).1) == frames,
    decreases frames.len(),
{
    let start = Pump::starting(direction);
    if frames.len() == 0 {
        assert(deliveries(pump_run(start, relay_events(frames)).1) =~= frames);
    } else {
        let first = frames.first();
        let later = frames.drop_first();
        let tail = relay_events(later);
        lemma_pump_relay_goes_on(direction, later);
        assert(relay_events(frames) =~= seq![PumpEventView::Fetched(first)] + (seq![
            PumpEventView::Delivered,
        ] + tail));
        lemma_pump_run_unfold(
            start,
            PumpEventView::Fetched(first),
            seq![PumpEventView::Delivered] + tail,
        );
        let delivering = pump_step(start, PumpEventView::Fetched(first)).0;
        lemma_pump_run_unfold(delivering, PumpEventView::Delivered, tail);
        let after = pump_run(start, tail);
        lemma_deliveries_unfold(PumpActionView::Fetch, after.1);
        lemma_deliveries_unfold(
            PumpActionView::Deliver(first),
            seq![PumpActionView::Fetch] + after.1,
        );
        assert(frames =~= seq![first] + later);
    }
}

} // verus!
