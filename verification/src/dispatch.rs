//! The dispatch loop: the application's side of the two queues.
//!
//! Two activities share one cancellation scope. The inbound consumer takes
//! each message that arrives on the inbound queue and handles it. The
//! outbound producer builds one numbered message per timer tick and pushes it
//! onto the outbound queue. Neither waits for the other.

use crate::message::{Message, MessageView};
use crate::pump::{
    deliveries, lemma_pump_relays_in_order, pump_run, relay_events, Direction, Pump, PumpEventView,
    StopReason,
};
use vstd::prelude::*;
use vstd::string::StringExecFns;

verus! {

/// Seconds between two messages of the outbound producer.
pub const TICK_PERIOD_SECS: u64 = 10;

/// The character of a decimal digit.
pub open spec fn digit_char(digit: nat) -> char {
    if digit == 0 {
        '0'
    } else if digit == 1 {
        '1'
    } else if digit == 2 {
        '2'
    } else if digit == 3 {
        '3'
    } else if digit == 4 {
        '4'
    } else if digit == 5 {
        '5'
    } else if digit == 6 {
        '6'
    } else if digit == 7 {
        '7'
    } else if digit == 8 {
        '8'
    } else {
        '9'
    }
}

/// A number written in decimal, without sign or leading zeros.
pub open spec fn decimal(number: nat) -> Seq<char>
    decreases number,
{
    if number < 10 {
        seq![digit_char(number)]
    } else {
        decimal(number / 10).push(digit_char(number % 10))
    }
}

/// The text of the outbound message with the given sequence number.
pub open spec fn counter_message(number: nat) -> Seq<char> {
    "Counter message "@ + decimal(number)
}

/// A number written in decimal has at least one digit.
pub proof fn lemma_decimal_is_not_empty(number: nat)
    ensures
        decimal(number).len() >= 1,
    decreases number,
{
    if number >= 10 {
        lemma_decimal_is_not_empty(number / 10);
    }
}

/// Different digits have different characters.
pub proof fn lemma_digit_char_is_injective(left: nat, right: nat)
    requires
        left < 10,
        right < 10,
        digit_char(left) == digit_char(right),
    ensures
        left == right,
{
}

/// Two numbers that are written alike are the same number.
pub proof fn lemma_decimal_is_injective(left: nat, right: nat)
    requires
        decimal(left) == decimal(right),
    ensures
        left == right,
    decreases left,
{
    if left < 10 && right < 10 {
        assert(decimal(left) == seq![digit_char(left)]);
        assert(decimal(right) == seq![digit_char(right)]);
        assert(seq![digit_char(left)][0] == digit_char(left));
        assert(seq![digit_char(right)][0] == digit_char(right));
        lemma_digit_char_is_injective(left, right);
    } else if left < 10 {
        lemma_decimal_is_not_empty(right / 10);
        assert(decimal(right).len() >= 2);
    } else if right < 10 {
        lemma_decimal_is_not_empty(left / 10);
        assert(decimal(left).len() >= 2);
    } else {
        let upper_left = decimal(left / 10);
        let upper_right = decimal(right / 10);
        let last_left = digit_char(left % 10);
        let last_right = digit_char(right % 10);
        assert(decimal(left) == upper_left.push(last_left));
        assert(decimal(right) == upper_right.push(last_right));
        assert(upper_left.push(last_left).last() == last_left);
        assert(upper_right.push(last_right).last() == last_right);
        assert(upper_left.push(last_left).drop_last() =~= upper_left);
        assert(upper_right.push(last_right).drop_last() =~= upper_right);
        assert(last_left == last_right);
        assert(upper_left == upper_right);
        lemma_digit_char_is_injective(left % 10, right % 10);
        lemma_decimal_is_injective(left / 10, right / 10);
    }
}

/// The text of an outbound message tells its sequence number: messages with
/// different numbers have different texts.
pub proof fn lemma_counter_message_tells_number(left: nat, right: nat)
    requires
        counter_message(left) == counter_message(right),
    ensures
        left == right,
{
    let prefix = "Counter message "@;
    let whole_left = prefix + decimal(left);
    let whole_right = prefix + decimal(right);
    assert(whole_left.subrange(prefix.len() as int, whole_left.len() as int) =~= decimal(left));
    assert(whole_right.subrange(prefix.len() as int, whole_right.len() as int) =~= decimal(right));
    lemma_decimal_is_injective(left, right);
}

fn digit_text(digit: u64) -> (text: &'static str)
    requires
        digit < 10,
    ensures
        text@ == seq![digit_char(digit as nat)],
{
    proof {
        reveal_strlit("0");
        reveal_strlit("1");
        reveal_strlit("2");
        reveal_strlit("3");
        reveal_strlit("4");
        reveal_strlit("5");
        reveal_strlit("6");
        reveal_strlit("7");
        reveal_strlit("8");
        reveal_strlit("9");
    }
    let text = if digit == 0 {
        "0"
    } else if digit == 1 {
        "1"
    } else if digit == 2 {
        "2"
    } else if digit == 3 {
        "3"
    } else if digit == 4 {
        "4"
    } else if digit == 5 {
        "5"
    } else if digit == 6 {
        "6"
    } else if digit == 7 {
        "7"
    } else if digit == 8 {
        "8"
    } else {
        "9"
    };
    assert(text@ =~= seq![digit_char(digit as nat)]);
    text
}

/// Writes a number in decimal.
pub fn decimal_text(number: u64) -> (text: String)
    ensures
        text@ == decimal(number as nat),
    decreases number,
{
    if number < 10 {
        String::from_str(digit_text(number))
    } else {
        let mut text = decimal_text(number / 10);
        text.append(digit_text(number % 10));
        assert(text@ =~= decimal(number as nat));
        text
    }
}

/// Builds the text of the outbound message with the given sequence number.
pub fn counter_text(number: u64) -> (text: String)
    ensures
        text@ == counter_message(number as nat),
{
    let mut text = String::from_str("Counter message ");
    let digits = decimal_text(number);
    text.append(digits.as_str());
    text
}

/// The inbound consumer: running until its queue closes or the process shuts
/// down, then stopped for the reason kept here.
#[derive(Clone, Copy, Debug, PartialEq, Eq)]
pub struct Consumer {
    pub stopped: Option<StopReason>,
}

/// The outcome of a pop from the inbound queue.
#[derive(Debug, PartialEq, Eq)]
pub enum InboundEvent {
    /// A message arrived.
    Arrived(Message),
    /// The queue is closed and empty.
    QueueClosed,
    /// The process is shutting down.
    Cancelled,
}

/// What the driver of the consumer does next.
#[derive(Debug, PartialEq, Eq)]
pub enum InboundAction {
    /// Hand this message to the application, then pop the next one.
    Handle(Message),
    /// End the activity.
    Stop(StopReason),
}

/// Mathematical content of an [`InboundEvent`].
pub enum InboundEventView {
    Arrived(MessageView),
    QueueClosed,
    Cancelled,
}

/// Mathematical content of an [`InboundAction`].
pub enum InboundActionView {
    Handle(MessageView),
    Stop(StopReason),
}

impl View for InboundEvent {
    type V = InboundEventView;

    open spec fn view(&self) -> InboundEventView {
        match self {
            InboundEvent::Arrived(message) => InboundEventView::Arrived(message@),
            InboundEvent::QueueClosed => InboundEventView::QueueClosed,
            InboundEvent::Cancelled => InboundEventView::Cancelled,
        }
    }
}

impl View for InboundAction {
    type V = InboundActionView;

    open spec fn view(&self) -> InboundActionView {
        match self {
            InboundAction::Handle(message) => InboundActionView::Handle(message@),
            InboundAction::Stop(reason) => InboundActionView::Stop(*reason),
        }
    }
}

/// The rules of the inbound consumer: every message that arrives while it
/// runs is handled; the first closure or cancellation stops it for good.
pub open spec fn inbound_step(consumer: Consumer, event: InboundEventView) -> (
    Consumer,
    InboundActionView,
) {
    match consumer.stopped {
        Some(reason) => (consumer, InboundActionView::Stop(reason)),
        None => match event {
            InboundEventView::Arrived(message) => (consumer, InboundActionView::Handle(message)),
            InboundEventView::QueueClosed => (
                Consumer { stopped: Some(StopReason::QueueClosed) },
                InboundActionView::Stop(StopReason::QueueClosed),
            ),
            InboundEventView::Cancelled => (
                Consumer { stopped: Some(StopReason::ShutdownRequested) },
                InboundActionView::Stop(StopReason::ShutdownRequested),
            ),
        },
    }
}

impl Consumer {
    /// A running consumer. Its driver begins by popping.
    pub fn new() -> (consumer: Consumer)
        ensures
            consumer == (Consumer { stopped: None }),
    {
        Consumer { stopped: None }
    }
}

/// Takes the outcome of a pop from the inbound queue and answers with what
/// to do about it, as [`inbound_step`] rules.
pub fn handle_incoming_messages(consumer: &mut Consumer, event: InboundEvent) -> (action:
    InboundAction)
    ensures
        (*final(consumer), action@) == inbound_step(*old(consumer), event@),
{
    if let Some(reason) = consumer.stopped {
        return InboundAction::Stop(reason);
    }
    match event {
        InboundEvent::Arrived(message) => InboundAction::Handle(message),
        InboundEvent::QueueClosed => {
            consumer.stopped = Some(StopReason::QueueClosed);
            InboundAction::Stop(StopReason::QueueClosed)
        },
        InboundEvent::Cancelled => {
            consumer.stopped = Some(StopReason::ShutdownRequested);
            InboundAction::Stop(StopReason::ShutdownRequested)
        },
    }
}

/// Where the outbound producer stands between two operations.
#[derive(Clone, Copy, Debug, PartialEq, Eq)]
pub enum ProducerPhase {
    /// Waiting for the timer.
    AwaitingTick,
    /// Waiting for the outbound queue to take the message last built.
    Pushing,
    /// Stopped for good.
    Stopped(StopReason),
}

/// The outbound producer.
#[derive(Clone, Copy, Debug, PartialEq, Eq)]
pub struct Producer {
    /// Sequence number of the next message.
    pub next: u64,
    /// Where the producer stands.
    pub phase: ProducerPhase,
}

/// The outcome of the operation the producer was waiting for.
#[derive(Clone, Copy, Debug, PartialEq, Eq)]
pub enum OutboundEvent {
    /// The timer fired.
    Tick,
    /// The queue took the message.
    Pushed,
    /// The queue's consumer is gone.
    QueueClosed,
    /// The process is shutting down.
    Cancelled,
}

/// What the driver of the producer does next.
#[derive(Debug, PartialEq, Eq)]
pub enum OutboundAction {
    /// Wait for the next tick of the timer.
    AwaitTick,
    /// Push this message onto the outbound queue, waiting for room if there
    /// is none.
    Push(Message),
    /// End the activity.
    Stop(StopReason),
    /// The event belongs to no operation that is outstanding: go on waiting.
    Hold,
}

/// Mathematical content of an [`OutboundAction`].
pub enum OutboundActionView {
    AwaitTick,
    Push(MessageView),
    Stop(StopReason),
    Hold,
}

impl View for OutboundAction {
    type V = OutboundActionView;

    open spec fn view(&self) -> OutboundActionView {
        match self {
            OutboundAction::AwaitTick => OutboundActionView::AwaitTick,
            OutboundAction::Push(message) => OutboundActionView::Push(message@),
            OutboundAction::Stop(reason) => OutboundActionView::Stop(*reason),
            OutboundAction::Hold => OutboundActionView::Hold,
        }
    }
}

/// The rules of the outbound producer. A tick met while waiting for one
/// yields the message numbered `next` and moves the number on by one; the
/// producer then waits until the queue has taken the message. It stops when
/// the queue's consumer is gone, on cancellation, and when the numbers run
/// out.
pub open spec fn outbound_step(producer: Producer, event: OutboundEvent) -> (
    Producer,
    OutboundActionView,
) {
    let stop = |reason: StopReason|
        (
            Producer { next: producer.next, phase: ProducerPhase::Stopped(reason) },
            OutboundActionView::Stop(reason),
        );
    match (producer.phase, event) {
        (ProducerPhase::Stopped(reason), _) => (producer, OutboundActionView::Stop(reason)),
        (_, OutboundEvent::Cancelled) => stop(StopReason::ShutdownRequested),
        (ProducerPhase::AwaitingTick, OutboundEvent::Tick) => if producer.next < u64::MAX {
            (
                Producer { next: (producer.next + 1) as u64, phase: ProducerPhase::Pushing },
                OutboundActionView::Push(
                    MessageView::Text(counter_message(producer.next as nat)),
                ),
            )
        } else {
            stop(StopReason::CounterExhausted)
        },
        (ProducerPhase::Pushing, OutboundEvent::Pushed) => (
            Producer { next: producer.next, phase: ProducerPhase::AwaitingTick },
            OutboundActionView::AwaitTick,
        ),
        (ProducerPhase::Pushing, OutboundEvent::QueueClosed) => stop(StopReason::QueueClosed),
        _ => (producer, OutboundActionView::Hold),
    }
}

impl Producer {
    /// A producer that has sent nothing yet. Its driver begins by waiting for
    /// a tick.
    pub fn new() -> (producer: Producer)
        ensures
            producer == (Producer { next: 0, phase: ProducerPhase::AwaitingTick }),
    {
        Producer { next: 0, phase: ProducerPhase::AwaitingTick }
    }
}

/// Takes the outcome of the operation the producer was waiting for and
/// answers with the next one, as [`outbound_step`] rules.
pub fn generate_outgoing_messages(producer: &mut Producer, event: OutboundEvent) -> (action:
    OutboundAction)
    ensures
        (*final(producer), action@) == outbound_step(*old(producer), event),
{
    match producer.phase {
        ProducerPhase::Stopped(reason) => OutboundAction::Stop(reason),
        ProducerPhase::AwaitingTick => match event {
            OutboundEvent::Cancelled => {
                producer.phase = ProducerPhase::Stopped(StopReason::ShutdownRequested);
                OutboundAction::Stop(StopReason::ShutdownRequested)
            },
            OutboundEvent::Tick => {
                if producer.next < u64::MAX {
                    let message = Message::Text(counter_text(producer.next));
                    producer.next = producer.next + 1;
                    producer.phase = ProducerPhase::Pushing;
                    OutboundAction::Push(message)
                } else {
                    producer.phase = ProducerPhase::Stopped(StopReason::CounterExhausted);
                    OutboundAction::Stop(StopReason::CounterExhausted)
                }
            },
            _ => OutboundAction::Hold,
        },
        ProducerPhase::Pushing => match event {
            OutboundEvent::Cancelled => {
                producer.phase = ProducerPhase::Stopped(StopReason::ShutdownRequested);
                OutboundAction::Stop(StopReason::ShutdownRequested)
            },
            OutboundEvent::Pushed => {
                producer.phase = ProducerPhase::AwaitingTick;
                OutboundAction::AwaitTick
            },
            OutboundEvent::QueueClosed => {
                producer.phase = ProducerPhase::Stopped(StopReason::QueueClosed);
                OutboundAction::Stop(StopReason::QueueClosed)
            },
            _ => OutboundAction::Hold,
        },
    }
}

/// The two activities of the dispatch loop, side by side.
#[derive(Clone, Copy, Debug, PartialEq, Eq)]
pub struct Dispatch {
    pub consumer: Consumer,
    pub producer: Producer,
}

/// An event of the dispatch loop, marked with the activity it belongs to.
#[derive(Debug, PartialEq, Eq)]
pub enum DispatchEvent {
    /// For the inbound consumer.
    Inbound(InboundEvent),
    /// For the outbound producer.
    Outbound(OutboundEvent),
    /// The process is shutting down: for both.
    Shutdown,
}

/// What the driver of the dispatch loop does next, for one activity or for
/// both.
#[derive(Debug, PartialEq, Eq)]
pub enum DispatchAction {
    Inbound(InboundAction),
    Outbound(OutboundAction),
    Both(InboundAction, OutboundAction),
}

/// Mathematical content of a [`DispatchEvent`].
pub enum DispatchEventView {
    Inbound(InboundEventView),
    Outbound(OutboundEvent),
    Shutdown,
}

/// Mathematical content of a [`DispatchAction`].
pub enum DispatchActionView {
    Inbound(InboundActionView),
    Outbound(OutboundActionView),
    Both(InboundActionView, OutboundActionView),
}

impl View for DispatchEvent {
    type V = DispatchEventView;

    open spec fn view(&self) -> DispatchEventView {
        match self {
            DispatchEvent::Inbound(event) => DispatchEventView::Inbound(event@),
            DispatchEvent::Outbound(event) => DispatchEventView::Outbound(*event),
            DispatchEvent::Shutdown => DispatchEventView::Shutdown,
        }
    }
}

impl View for DispatchAction {
    type V = DispatchActionView;

    open spec fn view(&self) -> DispatchActionView {
        match self {
            DispatchAction::Inbound(action) => DispatchActionView::Inbound(action@),
            DispatchAction::Outbound(action) => DispatchActionView::Outbound(action@),
            DispatchAction::Both(inbound, outbound) => DispatchActionView::Both(
                inbound@,
                outbound@,
            ),
        }
    }
}

/// The rules of the dispatch loop: an event goes to the activity it belongs
/// to and leaves the other one as it was; a shutdown cancels both.
pub open spec fn dispatch_step(dispatch: Dispatch, event: DispatchEventView) -> (
    Dispatch,
    DispatchActionView,
) {
    match event {
        DispatchEventView::Inbound(inbound) => {
            let (consumer, action) = inbound_step(dispatch.consumer, inbound);
            (
                Dispatch { consumer, producer: dispatch.producer },
                DispatchActionView::Inbound(action),
            )
        },
        DispatchEventView::Outbound(outbound) => {
            let (producer, action) = outbound_step(dispatch.producer, outbound);
            (
                Dispatch { consumer: dispatch.consumer, producer },
                DispatchActionView::Outbound(action),
            )
        },
        DispatchEventView::Shutdown => {
            let (consumer, inbound) = inbound_step(dispatch.consumer, InboundEventView::Cancelled);
            let (producer, outbound) = outbound_step(dispatch.producer, OutboundEvent::Cancelled);
            (Dispatch { consumer, producer }, DispatchActionView::Both(inbound, outbound))
        },
    }
}

impl Dispatch {
    /// Both activities at their start. The driver begins by popping from the
    /// inbound queue and by waiting for a tick, at the same time.
    pub fn new() -> (dispatch: Dispatch)
        ensures
            dispatch == (Dispatch {
                consumer: Consumer { stopped: None },
                producer: Producer { next: 0, phase: ProducerPhase::AwaitingTick },
            }),
    {
        Dispatch { consumer: Consumer::new(), producer: Producer::new() }
    }
}

/// Takes an event of either activity and answers with what its driver does
/// next, as [`dispatch_step`] rules.
pub fn run_dispatch(dispatch: &mut Dispatch, event: DispatchEvent) -> (action: DispatchAction)
    ensures
        (*final(dispatch), action@) == dispatch_step(*old(dispatch), event@),
{
    match event {
        DispatchEvent::Inbound(inbound) => {
            DispatchAction::Inbound(handle_incoming_messages(&mut dispatch.consumer, inbound))
        },
        DispatchEvent::Outbound(outbound) => {
            DispatchAction::Outbound(generate_outgoing_messages(&mut dispatch.producer, outbound))
        },
        DispatchEvent::Shutdown => {
            let inbound = handle_incoming_messages(&mut dispatch.consumer, InboundEvent::Cancelled);
            let outbound = generate_outgoing_messages(
                &mut dispatch.producer,
                OutboundEvent::Cancelled,
            );
            DispatchAction::Both(inbound, outbound)
        },
    }
}

/// The rules of the consumer applied to a whole sequence of events: the
/// consumer at the end and the actions asked for on the way, in order.
pub open spec fn inbound_run(consumer: Consumer, events: Seq<InboundEventView>) -> (
    Consumer,
    Seq<InboundActionView>,
)
    decreases events.len(),
{
    if events.len() == 0 {
        (consumer, Seq::empty())
    } else {
        let (next, action) = inbound_step(consumer, events.first());
        let (last, rest) = inbound_run(next, events.drop_first());
        (last, seq![action] + rest)
    }
}

/// The messages that a sequence of actions hands to the application, in
/// order.
pub open spec fn handled(actions: Seq<InboundActionView>) -> Seq<MessageView>
    decreases actions.len(),
{
    if actions.len() == 0 {
        Seq::empty()
    } else {
        let rest = handled(actions.drop_first());
        match actions.first() {
            InboundActionView::Handle(message) => seq![message] + rest,
            _ => rest,
        }
    }
}

/// The events of the given messages arriving one after the other.
pub open spec fn arrivals(messages: Seq<MessageView>) -> Seq<InboundEventView> {
    Seq::new(messages.len(), |i: int| InboundEventView::Arrived(messages[i]))
}

/// A running consumer hands the application every message that arrives, in
/// the order of arrival, and goes on running.
pub proof fn lemma_consumer_handles_in_order(messages: Seq<MessageView>)
    ensures
        inbound_run(Consumer { stopped: None }, arrivals(messages)).0 == (Consumer {
            stopped: None,
        }),
        handled(inbound_run(Consumer { stopped: None }, arrivals(messages)).1) == messages,
    decreases messages.len(),
{
    let running = Consumer { stopped: None };
    let events = arrivals(messages);
    if messages.len() == 0 {
        assert(handled(inbound_run(running, events).1) =~= messages);
    } else {
        let later = messages.drop_first();
        lemma_consumer_handles_in_order(later);
        assert(events.drop_first() =~= arrivals(later));
        let actions = inbound_run(running, events).1;
        let rest = inbound_run(running, arrivals(later)).1;
        assert(actions == seq![InboundActionView::Handle(messages.first())] + rest);
        assert(actions.first() == InboundActionView::Handle(messages.first()));
        assert(actions.drop_first() =~= rest);
        assert(messages =~= seq![messages.first()] + later);
    }
}

/// Order is preserved from the wire to the application. For every sequence
/// of frames that the wire yields before the connection is lost, each taken
/// by the inbound queue in turn: what the read pump hands the queue, taken
/// from the queue in the order in which it was put there, reaches the
/// application as exactly those frames, in the order in which they came.
pub proof fn lemma_inbound_order_preserved(frames: Seq<MessageView>, ending: PumpEventView)
    requires
        ending is SourceFailed || ending is SourceClosed,
    ensures
        ({
            let queued = deliveries(
                pump_run(Pump::starting(Direction::Inbound), relay_events(frames).push(ending)).1,
            );
            handled(inbound_run(Consumer { stopped: None }, arrivals(queued)).1) == frames
        }),
{
    lemma_pump_relays_in_order(Direction::Inbound, frames, ending);
    lemma_consumer_handles_in_order(frames);
}

/// A consumer that was told to stop stops at once and for good: it answers a
/// cancellation or the closure of its queue by stopping, and once stopped it
/// hands the application nothing more.
pub proof fn lemma_consumer_stop_is_final(
    consumer: Consumer,
    reason: StopReason,
    events: Seq<InboundEventView>,
)
    ensures
        inbound_step(consumer, InboundEventView::Cancelled).0.stopped is Some,
        inbound_step(consumer, InboundEventView::Cancelled).1 is Stop,
        inbound_run(Consumer { stopped: Some(reason) }, events) == (
            Consumer { stopped: Some(reason) },
            Seq::new(events.len(), |i: int| InboundActionView::Stop(reason)),
        ),
    decreases events.len(),
{
    if events.len() > 0 {
        lemma_consumer_stop_is_final(consumer, reason, events.drop_first());
    }
    assert(inbound_run(Consumer { stopped: Some(reason) }, events).1 =~= Seq::new(
        events.len(),
        |i: int| InboundActionView::Stop(reason),
    ));
}

/// The rules of the producer applied to a whole sequence of events: the
/// producer at the end and the actions asked for on the way, in order.
pub open spec fn outbound_run(producer: Producer, events: Seq<OutboundEvent>) -> (
    Producer,
    Seq<OutboundActionView>,
)
    decreases events.len(),
{
    if events.len() == 0 {
        (producer, Seq::empty())
    } else {
        let (next, action) = outbound_step(producer, events.first());
        let (last, rest) = outbound_run(next, events.drop_first());
        (last, seq![action] + rest)
    }
}

/// The messages that a sequence of actions pushes onto the outbound queue,
/// in order.
pub open spec fn pushes(actions: Seq<OutboundActionView>) -> Seq<MessageView>
    decreases actions.len(),
{
    if actions.len() == 0 {
        Seq::empty()
    } else {
        let rest = pushes(actions.drop_first());
        match actions.first() {
            OutboundActionView::Push(message) => seq![message] + rest,
            _ => rest,
        }
    }
}

/// The events of `count` ticks, each followed by the queue taking the
/// message that the tick brought.
pub open spec fn paced_ticks(count: nat) -> Seq<OutboundEvent>
    decreases count,
{
    if count == 0 {
        Seq::empty()
    } else {
        seq![OutboundEvent::Tick, OutboundEvent::Pushed] + paced_ticks((count - 1) as nat)
    }
}

/// Running the producer over one event and then over the rest is running it
/// over both.
pub proof fn lemma_outbound_run_unfold(
    producer: Producer,
    event: OutboundEvent,
    rest: Seq<OutboundEvent>,
)
    ensures
        outbound_run(producer, seq![event] + rest) == (
            outbound_run(outbound_step(producer, event).0, rest).0,
            seq![outbound_step(producer, event).1] + outbound_run(
                outbound_step(producer, event).0,
                rest,
            ).1,
        ),
{
    let events = seq![event] + rest;
    assert(events.first() == event);
    assert(events.drop_first() =~= rest);
}

/// What a sequence of actions pushes is what its first action pushes,
/// followed by what the others push.
pub proof fn lemma_pushes_unfold(action: OutboundActionView, rest: Seq<OutboundActionView>)
    ensures
        pushes(seq![action] + rest) == match action {
            OutboundActionView::Push(message) => seq![message] + pushes(rest),
            _ => pushes(rest),
        },
{
    let actions = seq![action] + rest;
    assert(actions.first() == action);
    assert(actions.drop_first() =~= rest);
}

/// One message per tick, numbered upwards without a gap. For every producer
/// that waits for a tick and every `count` that its numbers allow: over
/// `count` ticks, each followed by the queue taking the message, the producer
/// pushes exactly `count` messages; the one pushed on tick `i` carries the
/// number `next + i`, so each number is one more than the one before.
pub proof fn lemma_producer_numbers_each_tick(next: u64, count: nat)
    requires
        next + count <= u64::MAX,
    ensures
        ({
            let start = Producer { next, phase: ProducerPhase::AwaitingTick };
            let (producer, actions) = outbound_run(start, paced_ticks(count));
            &&& producer == (Producer {
                next: (next + count) as u64,
                phase: ProducerPhase::AwaitingTick,
            })
            &&& pushes(actions) == Seq::new(
                count,
                |i: int| MessageView::Text(counter_message((next + i) as nat)),
            )
        }),
    decreases count,
{
    let start = Producer { next, phase: ProducerPhase::AwaitingTick };
    let expected = Seq::new(count, |i: int| MessageView::Text(counter_message((next + i) as nat)));
    if count == 0 {
        assert(pushes(outbound_run(start, paced_ticks(count)).1) =~= expected);
    } else {
        let fewer = (count - 1) as nat;
        let tail = paced_ticks(fewer);
        let following = (next + 1) as u64;
        assert(paced_ticks(count) =~= seq![OutboundEvent::Tick] + (seq![OutboundEvent::Pushed]
            + tail));
        lemma_outbound_run_unfold(start, OutboundEvent::Tick, seq![OutboundEvent::Pushed] + tail);
        let pushing = outbound_step(start, OutboundEvent::Tick).0;
        lemma_outbound_run_unfold(pushing, OutboundEvent::Pushed, tail);
        lemma_producer_numbers_each_tick(following, fewer);
        let resumed = Producer { next: following, phase: ProducerPhase::AwaitingTick };
        let after = outbound_run(resumed, tail);
        let message = MessageView::Text(counter_message(next as nat));
        lemma_pushes_unfold(OutboundActionView::AwaitTick, after.1);
        lemma_pushes_unfold(
            OutboundActionView::Push(message),
            seq![OutboundActionView::AwaitTick] + after.1,
        );
        let later = Seq::new(
            fewer,
            |i: int| MessageView::Text(counter_message((following + i) as nat)),
        );
        assert(expected =~= seq![message] + later);
    }
}

/// A full queue holds the producer back. While a push is outstanding the
/// producer builds nothing new: until the queue answers or the process shuts
/// down it holds on through every tick, pushes no second message, and keeps
/// its number.
pub proof fn lemma_producer_waits_for_queue(next: u64, events: Seq<OutboundEvent>)
    requires
        forall|i: int| 0 <= i < events.len() ==> events[i] == OutboundEvent::Tick,
    ensures
        outbound_run(Producer { next, phase: ProducerPhase::Pushing }, events) == (
            Producer { next, phase: ProducerPhase::Pushing },
            Seq::new(events.len(), |i: int| OutboundActionView::Hold),
        ),
        outbound_step(Producer { next, phase: ProducerPhase::Pushing }, OutboundEvent::Pushed) == (
            Producer { next, phase: ProducerPhase::AwaitingTick },
            OutboundActionView::AwaitTick,
        ),
    decreases events.len(),
{
    let waiting = Producer { next, phase: ProducerPhase::Pushing };
    if events.len() > 0 {
        let later = events.drop_first();
        assert(events.first() == events[0]);
        assert forall|i: int| 0 <= i < later.len() implies later[i] == OutboundEvent::Tick by {
            assert(later[i] == events[i + 1]);
        }
        lemma_producer_waits_for_queue(next, later);
    }
    assert(outbound_run(waiting, events).1 =~= Seq::new(
        events.len(),
        |i: int| OutboundActionView::Hold,
    ));
}

/// A producer that was told to stop stops at once and for good: in every
/// phase it answers a cancellation by stopping, and once stopped it pushes
/// nothing more.
pub proof fn lemma_producer_stop_is_final(
    producer: Producer,
    reason: StopReason,
    events: Seq<OutboundEvent>,
)
    ensures
        outbound_step(producer, OutboundEvent::Cancelled).0.phase is Stopped,
        outbound_step(producer, OutboundEvent::Cancelled).1 is Stop,
        outbound_run(
            Producer { next: producer.next, phase: ProducerPhase::Stopped(reason) },
            events,
        ) == (
            Producer { next: producer.next, phase: ProducerPhase::Stopped(reason) },
            Seq::new(events.len(), |i: int| OutboundActionView::Stop(reason)),
        ),
    decreases events.len(),
{
    let stopped = Producer { next: producer.next, phase: ProducerPhase::Stopped(reason) };
    if events.len() > 0 {
        lemma_producer_stop_is_final(producer, reason, events.drop_first());
    }
    assert(outbound_run(stopped, events).1 =~= Seq::new(
        events.len(),
        |i: int| OutboundActionView::Stop(reason),
    ));
}

/// Neither activity waits for the other. An event of one activity leaves the
/// other as it was, so an inbound and an outbound event may be taken in
/// either order: both orders end in the same state and ask for the same
/// actions.
pub proof fn lemma_activities_are_independent(
    dispatch: Dispatch,
    inbound: InboundEventView,
    outbound: OutboundEvent,
)
    ensures
        dispatch_step(dispatch, DispatchEventView::Inbound(inbound)).0.producer
            == dispatch.producer,
        dispatch_step(dispatch, DispatchEventView::Outbound(outbound)).0.consumer
            == dispatch.consumer,
        ({
            let inbound_first = dispatch_step(dispatch, DispatchEventView::Inbound(inbound));
            let outbound_first = dispatch_step(dispatch, DispatchEventView::Outbound(outbound));
            let one_way = dispatch_step(inbound_first.0, DispatchEventView::Outbound(outbound));
            let other_way = dispatch_step(outbound_first.0, DispatchEventView::Inbound(inbound));
            &&& one_way.0 == other_way.0
            &&& one_way.1 == outbound_first.1
            &&& other_way.1 == inbound_first.1
        }),
{
}

/// A shutdown stops both activities in one step.
pub proof fn lemma_shutdown_stops_both(dispatch: Dispatch)
    ensures
        dispatch_step(dispatch, DispatchEventView::Shutdown).0.consumer.stopped is Some,
        dispatch_step(dispatch, DispatchEventView::Shutdown).0.producer.phase is Stopped,
        dispatch_step(dispatch, DispatchEventView::Shutdown).1 matches DispatchActionView::Both(
            inbound,
            outbound,
        ) && inbound is Stop && outbound is Stop,
{
}

/// Whatever happens, the numbers have no gap and none comes twice. Over
/// every sequence of events, from every state: the number of the producer
/// never goes down, and the messages pushed are exactly those numbered from
/// the number it began with up to the number it ends with, in that order.
pub proof fn lemma_pushes_are_numbered_without_gap(producer: Producer, events: Seq<OutboundEvent>)
    ensures
        ({
            let (last, actions) = outbound_run(producer, events);
            &&& producer.next <= last.next
            &&& pushes(actions) == Seq::new(
                (last.next - producer.next) as nat,
                |i: int| MessageView::Text(counter_message((producer.next + i) as nat)),
            )
        }),
    decreases events.len(),
{
    let (last, actions) = outbound_run(producer, events);
    let expected = Seq::new(
        (last.next - producer.next) as nat,
        |i: int| MessageView::Text(counter_message((producer.next + i) as nat)),
    );
    if events.len() == 0 {
        assert(pushes(actions) =~= expected);
    } else {
        let (next, action) = outbound_step(producer, events.first());
        let later = events.drop_first();
        lemma_pushes_are_numbered_without_gap(next, later);
        let rest = outbound_run(next, later).1;
        assert(actions == seq![action] + rest);
        lemma_pushes_unfold(action, rest);
        let following = Seq::new(
            (last.next - next.next) as nat,
            |i: int| MessageView::Text(counter_message((next.next + i) as nat)),
        );
        if action is Push {
            assert(next.next == producer.next + 1);
            assert(expected =~= seq![MessageView::Text(counter_message(producer.next as nat))]
                + following);
        } else {
            assert(next.next == producer.next);
            assert(expected =~= following);
        }
    }
}

} // verus!
