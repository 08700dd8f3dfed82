//! The connection supervisor.
//!
//! The supervisor owns the server's address and the client's ends of the two
//! queues. For the whole life of the process it goes round one loop: make the
//! address into a request target, connect, run a session on the connection
//! until both of its pumps have exited, and start over. Whatever fails on the
//! way to a connection is followed by a fixed delay and another attempt.
//!
//! The queues outlive the sessions. What the application has pushed and no
//! write pump has fetched yet waits in the outbound queue for the next
//! session; a message that a write pump had fetched when its session ended
//! is lost with the connection.

use crate::channel::{
    bounded_channel, clone_sender, receiver_bound, receiver_queue, sender_bound,
    sender_max_capacity, sender_queue, MAX_QUEUE_CAPACITY, QUEUE_CAPACITY,
};
use crate::message::Message;
use crate::pump::{Direction, Pump};
use crate::vcp_config::{parsed_request_target, AddressParseError, Endpoint};
use tokio::sync::mpsc::{Receiver, Sender};
use vstd::prelude::*;

verus! {

/// Seconds between a failed attempt and the next one.
pub const RETRY_DELAY_SECS: u64 = 2;

/// Where the supervisor stands between two operations.
#[derive(Clone, Copy, Debug, PartialEq, Eq)]
pub enum Phase {
    /// Not started yet.
    Idle,
    /// A connection attempt is under way.
    Connecting,
    /// A session is running: both pumps are at work.
    InSession,
    /// The write pump has exited; the read pump was told to and has not yet.
    AwaitingReadPump,
    /// The read pump has exited; the write pump was told to and has not yet.
    AwaitingWritePump,
    /// The retry delay is running.
    Backoff,
    /// Shut down for good.
    Stopped,
}

/// The outcome of the operation the supervisor was waiting for.
#[derive(Debug)]
pub enum SupervisorEvent {
    /// The supervisor's task begins.
    Start,
    /// The connection attempt succeeded.
    Connected,
    /// The connection attempt failed.
    ConnectFailed,
    /// The read pump of the session has exited.
    ReadPumpExited,
    /// The write pump of the session has exited and gives back the consuming
    /// end of the outbound queue.
    WritePumpExited(Receiver<Message>),
    /// The retry delay is over.
    DelayElapsed,
    /// The process is shutting down.
    Shutdown,
}

/// What happened, without what came with it: the mathematical content of a
/// [`SupervisorEvent`].
#[derive(Clone, Copy, Debug, PartialEq, Eq)]
pub enum Signal {
    Start,
    Connected,
    ConnectFailed,
    ReadPumpExited,
    WritePumpExited,
    DelayElapsed,
    Shutdown,
}

impl View for SupervisorEvent {
    type V = Signal;

    open spec fn view(&self) -> Signal {
        match self {
            SupervisorEvent::Start => Signal::Start,
            SupervisorEvent::Connected => Signal::Connected,
            SupervisorEvent::ConnectFailed => Signal::ConnectFailed,
            SupervisorEvent::ReadPumpExited => Signal::ReadPumpExited,
            SupervisorEvent::WritePumpExited(_) => Signal::WritePumpExited,
            SupervisorEvent::DelayElapsed => Signal::DelayElapsed,
            SupervisorEvent::Shutdown => Signal::Shutdown,
        }
    }
}

impl SupervisorEvent {
    /// The queue end that the event brings back, if it brings one.
    pub open spec fn returned_end(&self) -> Option<Receiver<Message>> {
        match self {
            SupervisorEvent::WritePumpExited(end) => Some(*end),
            _ => None,
        }
    }
}

/// Why the supervisor waits before its next attempt.
#[derive(Debug, PartialEq, Eq)]
pub enum RetryCause {
    /// The address is no usable request target; the parser's words are
    /// attached.
    InvalidTarget(String),
    /// The server could not be reached.
    ConnectFailed,
}

/// Mathematical content of a [`RetryCause`].
pub enum RetryCauseView {
    InvalidTarget(Seq<char>),
    ConnectFailed,
}

impl View for RetryCause {
    type V = RetryCauseView;

    open spec fn view(&self) -> RetryCauseView {
        match self {
            RetryCause::InvalidTarget(reason) => RetryCauseView::InvalidTarget(reason@),
            RetryCause::ConnectFailed => RetryCauseView::ConnectFailed,
        }
    }
}

/// What a session is run with: its two pumps, each with the queue end it
/// works on. The write pump has the consuming end of the outbound queue to
/// itself until it exits.
#[derive(Debug)]
pub struct PumpPair {
    /// Moves frames from the wire to the inbound queue.
    pub read_pump: Pump,
    /// Moves messages from the outbound queue to the wire.
    pub write_pump: Pump,
    /// Producing end of the inbound queue, for the read pump.
    pub incoming_tx: Sender<Message>,
    /// Consuming end of the outbound queue, for the write pump.
    pub outgoing_rx: Receiver<Message>,
}

/// What the driver of the supervisor does next.
#[derive(Debug)]
pub enum SupervisorAction {
    /// Try to open a connection to this request target.
    Connect(String),
    /// Report the cause, then let this many seconds pass.
    Wait { seconds: u64, cause: RetryCause },
    /// Report the connection, then run both pumps on it.
    RunSession(PumpPair),
    /// Tell the read pump to stop and wait for its exit.
    CancelReadPump,
    /// Tell the write pump to stop and wait for its exit.
    CancelWritePump,
    /// End the supervisor's task, and with it whatever it still runs.
    Stop,
    /// The event belongs to no operation that is outstanding: go on waiting.
    Hold,
}

/// Mathematical content of a [`SupervisorAction`].
pub enum SupervisorActionView {
    Connect(Seq<char>),
    Wait { seconds: u64, cause: RetryCauseView },
    RunSession,
    CancelReadPump,
    CancelWritePump,
    Stop,
    Hold,
}

impl View for SupervisorAction {
    type V = SupervisorActionView;

    open spec fn view(&self) -> SupervisorActionView {
        match self {
            SupervisorAction::Connect(target) => SupervisorActionView::Connect(target@),
            SupervisorAction::Wait { seconds, cause } => SupervisorActionView::Wait {
                seconds: *seconds,
                cause: cause@,
            },
            SupervisorAction::RunSession(_) => SupervisorActionView::RunSession,
            SupervisorAction::CancelReadPump => SupervisorActionView::CancelReadPump,
            SupervisorAction::CancelWritePump => SupervisorActionView::CancelWritePump,
            SupervisorAction::Stop => SupervisorActionView::Stop,
            SupervisorAction::Hold => SupervisorActionView::Hold,
        }
    }
}

/// The head of the loop, given what the address made as a request target.
/// Where it made one, a connection to it is attempted; where it was refused,
/// the retry delay follows and the address is tried again.
pub open spec fn attempt_step(target: Result<Seq<char>, Seq<char>>) -> (
    Phase,
    SupervisorActionView,
) {
    match target {
        Ok(text) => (Phase::Connecting, SupervisorActionView::Connect(text)),
        Err(reason) => (
            Phase::Backoff,
            SupervisorActionView::Wait {
                seconds: RETRY_DELAY_SECS,
                cause: RetryCauseView::InvalidTarget(reason),
            },
        ),
    }
}

/// The rules of the supervisor: the phase it enters and the action it asks
/// for when `signal` arrives in `phase`, for a server whose address made
/// `target` as a request target.
pub open spec fn supervise(phase: Phase, signal: Signal, target: Result<Seq<char>, Seq<char>>) -> (
    Phase,
    SupervisorActionView,
) {
    match (phase, signal) {
        (Phase::Stopped, _) => (Phase::Stopped, SupervisorActionView::Stop),
        (_, Signal::Shutdown) => (Phase::Stopped, SupervisorActionView::Stop),
        (Phase::Idle, Signal::Start) => attempt_step(target),
        (Phase::Backoff, Signal::DelayElapsed) => attempt_step(target),
        (Phase::Connecting, Signal::Connected) => (
            Phase::InSession,
            SupervisorActionView::RunSession,
        ),
        (Phase::Connecting, Signal::ConnectFailed) => (
            Phase::Backoff,
            SupervisorActionView::Wait {
                seconds: RETRY_DELAY_SECS,
                cause: RetryCauseView::ConnectFailed,
            },
        ),
        (Phase::InSession, Signal::ReadPumpExited) => (
            Phase::AwaitingWritePump,
            SupervisorActionView::CancelWritePump,
        ),
        (Phase::InSession, Signal::WritePumpExited) => (
            Phase::AwaitingReadPump,
            SupervisorActionView::CancelReadPump,
        ),
        (Phase::AwaitingWritePump, Signal::WritePumpExited) => attempt_step(target),
        (Phase::AwaitingReadPump, Signal::ReadPumpExited) => attempt_step(target),
        _ => (phase, SupervisorActionView::Hold),
    }
}

/// Whether the write pump of a session has the consuming end of the outbound
/// queue in the given phase.
pub open spec fn receiver_lent(phase: Phase) -> bool {
    phase is InSession || phase is AwaitingWritePump
}

/// Decides the head of the loop from the outcome of the address check, as
/// [`attempt_step`] rules.
pub fn attempt(target: Result<String, AddressParseError>) -> (decided: (Phase, SupervisorAction))
    ensures
        (decided.0, decided.1@) == attempt_step(
            match target {
                Ok(text) => Ok(text@),
                Err(error) => Err(error.reason@),
            },
        ),
{
    match target {
        Ok(address) => (Phase::Connecting, SupervisorAction::Connect(address)),
        Err(error) => (
            Phase::Backoff,
            SupervisorAction::Wait {
                seconds: RETRY_DELAY_SECS,
                cause: RetryCause::InvalidTarget(error.reason),
            },
        ),
    }
}

/// The connection supervisor of one client.
#[derive(Debug)]
pub struct WebSocketClient {
    server_url: Endpoint,
    incoming_tx: Sender<Message>,
    outgoing_rx: Option<Receiver<Message>>,
    phase: Phase,
}

impl WebSocketClient {
    /// The address of the server.
    pub closed spec fn address(&self) -> Seq<char> {
        self.server_url@
    }

    /// Where the supervisor stands.
    pub closed spec fn current_phase(&self) -> Phase {
        self.phase
    }

    /// The producing end of the inbound queue.
    pub closed spec fn inbound_end(&self) -> Sender<Message> {
        self.incoming_tx
    }

    /// The consuming end of the outbound queue, while the supervisor has it.
    pub closed spec fn outbound_end(&self) -> Option<Receiver<Message>> {
        self.outgoing_rx
    }

    /// The supervisor has the consuming end of the outbound queue whenever no
    /// write pump is at work, until it shuts down.
    #[verifier::type_invariant]
    spec fn holds_receiver(self) -> bool {
        !receiver_lent(self.phase) && !(self.phase is Stopped) ==> self.outgoing_rx is Some
    }

    /// Makes the queues and the supervisor that keeps its ends of them.
    fn assemble(server_url: Endpoint, capacity: usize) -> (made: (
        Self,
        Receiver<Message>,
        Sender<Message>,
    ))
        requires
            0 < capacity <= MAX_QUEUE_CAPACITY,
        ensures
            made.0.server_url == server_url,
            made.0.phase == Phase::Idle,
            sender_bound(made.0.incoming_tx) == capacity,
            made.0.outgoing_rx matches Some(end) && receiver_bound(end) == capacity
                && receiver_queue(end) == sender_queue(made.2),
            receiver_bound(made.1) == capacity,
            sender_bound(made.2) == capacity,
            sender_queue(made.0.incoming_tx) == receiver_queue(made.1),
    {
        let (incoming_tx, incoming_rx) = bounded_channel(capacity);
        let (outgoing_tx, outgoing_rx) = bounded_channel(capacity);
        (
            WebSocketClient {
                server_url,
                incoming_tx,
                outgoing_rx: Some(outgoing_rx),
                phase: Phase::Idle,
            },
            incoming_rx,
            outgoing_tx,
        )
    }

    /// Makes a client for the given server, with queues of
    /// [`QUEUE_CAPACITY`] slots. Hands back the supervisor, which keeps the
    /// producing end of the inbound queue and the consuming end of the
    /// outbound queue, and the two ends that are the application's: the
    /// consuming end of the inbound queue and the producing end of the
    /// outbound queue. What the supervisor's side pushes inbound is what the
    /// application pops, and what the application pushes outbound is what
    /// the supervisor's side pops.
    pub fn new(server_url: Endpoint) -> (made: (Self, Receiver<Message>, Sender<Message>))
        ensures
            made.0.address() == server_url@,
            made.0.current_phase() == Phase::Idle,
            sender_bound(made.0.inbound_end()) == QUEUE_CAPACITY,
            made.0.outbound_end() matches Some(end) && receiver_bound(end) == QUEUE_CAPACITY
                && receiver_queue(end) == sender_queue(made.2),
            receiver_bound(made.1) == QUEUE_CAPACITY,
            sender_bound(made.2) == QUEUE_CAPACITY,
            sender_queue(made.0.inbound_end()) == receiver_queue(made.1),
    {
        Self::assemble(server_url, QUEUE_CAPACITY)
    }

    /// Makes a client as [`WebSocketClient::new`] does, with queues of
    /// `capacity` slots. There is no client for a capacity of zero, nor for
    /// one above [`MAX_QUEUE_CAPACITY`].
    pub fn with_capacity(server_url: Endpoint, capacity: usize) -> (made: Option<
        (Self, Receiver<Message>, Sender<Message>),
    >)
        ensures
            made is Some <==> 0 < capacity <= MAX_QUEUE_CAPACITY,
            made matches Some(parts) ==> {
                &&& parts.0.address() == server_url@
                &&& parts.0.current_phase() == Phase::Idle
                &&& sender_bound(parts.0.inbound_end()) == capacity
                &&& parts.0.outbound_end() matches Some(end) && receiver_bound(end) == capacity
                    && receiver_queue(end) == sender_queue(parts.2)
                &&& receiver_bound(parts.1) == capacity
                &&& sender_bound(parts.2) == capacity
                &&& sender_queue(parts.0.inbound_end()) == receiver_queue(parts.1)
            },
    {
        if capacity == 0 || capacity > MAX_QUEUE_CAPACITY {
            None
        } else {
            Some(Self::assemble(server_url, capacity))
        }
    }

    /// Where the supervisor stands.
    pub fn phase(&self) -> (phase: Phase)
        ensures
            phase == self.current_phase(),
    {
        self.phase
    }

    /// The address of the server.
    pub fn server_url(&self) -> (endpoint: &Endpoint)
        ensures
            endpoint@ == self.address(),
    {
        &self.server_url
    }

    /// The number of slots of the inbound queue.
    pub fn queue_capacity(&self) -> (capacity: usize)
        ensures
            capacity == sender_bound(self.inbound_end()),
    {
        sender_max_capacity(&self.incoming_tx)
    }

    /// Binds a new pair of pumps to the queue ends of this client: the read
    /// pump gets a producing handle of the inbound queue, the write pump the
    /// consuming end of the outbound queue.
    fn handle_connection(&mut self) -> (pair: PumpPair)
        requires
            old(self).outgoing_rx is Some,
        ensures
            pair.read_pump == Pump::starting(Direction::Inbound),
            pair.write_pump == Pump::starting(Direction::Outbound),
            sender_bound(pair.incoming_tx) == sender_bound(old(self).incoming_tx),
            sender_queue(pair.incoming_tx) == sender_queue(old(self).incoming_tx),
            Some(pair.outgoing_rx) == old(self).outgoing_rx,
            final(self).outgoing_rx is None,
            final(self).incoming_tx == old(self).incoming_tx,
            final(self).server_url == old(self).server_url,
            final(self).phase == Phase::InSession,
    {
        let incoming_tx = clone_sender(&self.incoming_tx);
        self.phase = Phase::InSession;
        let mut lent: Option<Receiver<Message>> = None;
        core::mem::swap(&mut self.outgoing_rx, &mut lent);
        PumpPair {
            read_pump: Pump::read(),
            write_pump: Pump::write(),
            incoming_tx,
            outgoing_rx: lent.unwrap(),
        }
    }

    /// Goes to the head of the loop: checks the address and decides on the
    /// outcome.
    fn attempt_connection(&mut self) -> (action: SupervisorAction)
        requires
            old(self).outgoing_rx is Some,
        ensures
            (final(self).phase, action@) == attempt_step(
                parsed_request_target(old(self).server_url@),
            ),
            final(self).outgoing_rx == old(self).outgoing_rx,
            final(self).incoming_tx == old(self).incoming_tx,
            final(self).server_url == old(self).server_url,
    {
        let (phase, action) = attempt(self.server_url.request_target());
        self.phase = phase;
        action
    }

    /// Takes the outcome of the operation the supervisor was waiting for and
    /// answers with the next one, as [`supervise`] rules. The loop has no
    /// end but a shutdown.
    ///
    /// A session is started with a fresh pair of pumps, a producing handle of
    /// the client's own inbound queue and the consuming end of the outbound
    /// queue, which the exit of the write pump brings back. Every session of
    /// a client so works on the same two queues.
    pub fn connect_and_run(&mut self, event: SupervisorEvent) -> (action: SupervisorAction)
        ensures
            final(self).address() == old(self).address(),
            final(self).inbound_end() == old(self).inbound_end(),
            (final(self).current_phase(), action@) == supervise(
                old(self).current_phase(),
                event@,
                parsed_request_target(old(self).address()),
            ),
            action matches SupervisorAction::RunSession(pair) ==> {
                &&& pair.read_pump == Pump::starting(Direction::Inbound)
                &&& pair.write_pump == Pump::starting(Direction::Outbound)
                &&& sender_bound(pair.incoming_tx) == sender_bound(old(self).inbound_end())
                &&& sender_queue(pair.incoming_tx) == sender_queue(old(self).inbound_end())
                &&& Some(pair.outgoing_rx) == old(self).outbound_end()
            },
            final(self).outbound_end() == if action is RunSession {
                None
            } else if receiver_lent(old(self).current_phase()) && event is WritePumpExited {
                event.returned_end()
            } else {
                old(self).outbound_end()
            },
    {
        proof {
            use_type_invariant(&*self);
        }
        match self.phase {
            Phase::Stopped => SupervisorAction::Stop,
            Phase::Idle => match event {
                SupervisorEvent::Shutdown => self.shut_down(),
                SupervisorEvent::Start => self.attempt_connection(),
                _ => SupervisorAction::Hold,
            },
            Phase::Backoff => match event {
                SupervisorEvent::Shutdown => self.shut_down(),
                SupervisorEvent::DelayElapsed => self.attempt_connection(),
                _ => SupervisorAction::Hold,
            },
            Phase::Connecting => match event {
                SupervisorEvent::Shutdown => self.shut_down(),
                SupervisorEvent::Connected => SupervisorAction::RunSession(
                    self.handle_connection(),
                ),
                SupervisorEvent::ConnectFailed => {
                    self.phase = Phase::Backoff;
                    SupervisorAction::Wait {
                        seconds: RETRY_DELAY_SECS,
                        cause: RetryCause::ConnectFailed,
                    }
                },
                _ => SupervisorAction::Hold,
            },
            Phase::InSession => match event {
                SupervisorEvent::Shutdown => self.shut_down(),
                SupervisorEvent::ReadPumpExited => {
                    self.phase = Phase::AwaitingWritePump;
                    SupervisorAction::CancelWritePump
                },
                SupervisorEvent::WritePumpExited(end) => {
                    self.outgoing_rx = Some(end);
                    self.phase = Phase::AwaitingReadPump;
                    SupervisorAction::CancelReadPump
                },
                _ => SupervisorAction::Hold,
            },
            Phase::AwaitingReadPump => match event {
                SupervisorEvent::Shutdown => self.shut_down(),
                SupervisorEvent::ReadPumpExited => self.attempt_connection(),
                _ => SupervisorAction::Hold,
            },
            Phase::AwaitingWritePump => match event {
                SupervisorEvent::Shutdown => self.shut_down(),
                SupervisorEvent::WritePumpExited(end) => {
                    self.outgoing_rx = Some(end);
                    self.attempt_connection()
                },
                _ => SupervisorAction::Hold,
            },
        }
    }

    fn shut_down(&mut self) -> (action: SupervisorAction)
        ensures
            final(self).phase == Phase::Stopped,
            action@ == SupervisorActionView::Stop,
            final(self).outgoing_rx == old(self).outgoing_rx,
            final(self).incoming_tx == old(self).incoming_tx,
            final(self).server_url == old(self).server_url,
    {
        self.phase = Phase::Stopped;
        SupervisorAction::Stop
    }
}

/// The rules applied to a whole sequence of signals, one after the other:
/// the phase at the end and the actions asked for on the way, in order.
pub open spec fn supervisor_run(
    phase: Phase,
    signals: Seq<Signal>,
    target: Result<Seq<char>, Seq<char>>,
) -> (Phase, Seq<SupervisorActionView>)
    decreases signals.len(),
{
    if signals.len() == 0 {
        (phase, Seq::empty())
    } else {
        let (next, action) = supervise(phase, signals.first(), target);
        let (last, rest) = supervisor_run(next, signals.drop_first(), target);
        (last, seq![action] + rest)
    }
}

/// The signals of `count` connection attempts that fail, each followed by the
/// end of its retry delay.
pub open spec fn failed_attempts(count: nat) -> Seq<Signal>
    decreases count,
{
    if count == 0 {
        Seq::empty()
    } else {
        seq![Signal::ConnectFailed, Signal::DelayElapsed] + failed_attempts((count - 1) as nat)
    }
}

/// `count` retries: each a wait of the retry delay followed by a new
/// connection attempt.
pub open spec fn retries(text: Seq<char>, count: nat) -> Seq<SupervisorActionView>
    decreases count,
{
    if count == 0 {
        Seq::empty()
    } else {
        seq![
            SupervisorActionView::Wait {
                seconds: RETRY_DELAY_SECS,
                cause: RetryCauseView::ConnectFailed,
            },
            SupervisorActionView::Connect(text),
        ] + retries(text, (count - 1) as nat)
    }
}

/// The seconds of the waits among a sequence of actions, in order.
pub open spec fn waits(actions: Seq<SupervisorActionView>) -> Seq<u64>
    decreases actions.len(),
{
    if actions.len() == 0 {
        Seq::empty()
    } else {
        let rest = waits(actions.drop_first());
        match actions.first() {
            SupervisorActionView::Wait { seconds, .. } => seq![seconds] + rest,
            _ => rest,
        }
    }
}

/// The number of connection attempts among a sequence of actions.
pub open spec fn attempts(actions: Seq<SupervisorActionView>) -> nat
    decreases actions.len(),
{
    if actions.len() == 0 {
        0
    } else {
        let rest = attempts(actions.drop_first());
        match actions.first() {
            SupervisorActionView::Connect(_) => 1 + rest,
            _ => rest,
        }
    }
}

/// Running the supervisor over one signal and then over the rest is running
/// it over both.
pub proof fn lemma_supervisor_run_unfold(
    phase: Phase,
    signal: Signal,
    rest: Seq<Signal>,
    target: Result<Seq<char>, Seq<char>>,
)
    ensures
        supervisor_run(phase, seq![signal] + rest, target) == (
            supervisor_run(supervise(phase, signal, target).0, rest, target).0,
            seq![supervise(phase, signal, target).1] + supervisor_run(
                supervise(phase, signal, target).0,
                rest,
                target,
            ).1,
        ),
{
    let signals = seq![signal] + rest;
    assert(signals.first() == signal);
    assert(signals.drop_first() =~= rest);
}

/// The waits of a sequence of actions are those of its first action followed
/// by those of the others, and likewise its attempts.
pub proof fn lemma_waits_unfold(action: SupervisorActionView, rest: Seq<SupervisorActionView>)
    ensures
        waits(seq![action] + rest) == match action {
            SupervisorActionView::Wait { seconds, .. } => seq![seconds] + waits(rest),
            _ => waits(rest),
        },
        attempts(seq![action] + rest) == match action {
            SupervisorActionView::Connect(_) => 1 + attempts(rest),
            _ => attempts(rest),
        },
{
    let actions = seq![action] + rest;
    assert(actions.first() == action);
    assert(actions.drop_first() =~= rest);
}

/// From an attempt under way, `count` failures cost exactly `count` retries
/// before whatever comes after them is looked at.
pub proof fn lemma_failures_are_retried(text: Seq<char>, count: nat, rest: Seq<Signal>)
    ensures
        supervisor_run(Phase::Connecting, failed_attempts(count) + rest, Ok(text)) == (
            supervisor_run(Phase::Connecting, rest, Ok(text)).0,
            retries(text, count) + supervisor_run(Phase::Connecting, rest, Ok(text)).1,
        ),
    decreases count,
{
    let after = supervisor_run(Phase::Connecting, rest, Ok(text));
    if count == 0 {
        assert(failed_attempts(count) + rest =~= rest);
        assert(retries(text, count) + after.1 =~= after.1);
    } else {
        let fewer = (count - 1) as nat;
        let tail = failed_attempts(fewer) + rest;
        let wait = SupervisorActionView::Wait {
            seconds: RETRY_DELAY_SECS,
            cause: RetryCauseView::ConnectFailed,
        };
        let connect = SupervisorActionView::Connect(text);
        assert(failed_attempts(count) + rest =~= seq![Signal::ConnectFailed] + (seq![
            Signal::DelayElapsed,
        ] + tail));
        lemma_supervisor_run_unfold(
            Phase::Connecting,
            Signal::ConnectFailed,
            seq![Signal::DelayElapsed] + tail,
            Ok(text),
        );
        lemma_supervisor_run_unfold(Phase::Backoff, Signal::DelayElapsed, tail, Ok(text));
        lemma_failures_are_retried(text, fewer, rest);
        assert(retries(text, count) + after.1 =~= seq![wait] + (seq![connect] + (retries(text,
            fewer,
        ) + after.1)));
    }
}

/// `count` retries hold `count` waits, each of the retry delay, and `count`
/// connection attempts, whatever follows them.
pub proof fn lemma_retries_wait_each_time(
    text: Seq<char>,
    count: nat,
    rest: Seq<SupervisorActionView>,
)
    ensures
        waits(retries(text, count) + rest) == Seq::new(count, |i: int| RETRY_DELAY_SECS) + waits(
            rest,
        ),
        attempts(retries(text, count) + rest) == count + attempts(rest),
    decreases count,
{
    if count == 0 {
        assert(retries(text, count) + rest =~= rest);
        assert(Seq::new(count, |i: int| RETRY_DELAY_SECS) + waits(rest) =~= waits(rest));
    } else {
        let fewer = (count - 1) as nat;
        let wait = SupervisorActionView::Wait {
            seconds: RETRY_DELAY_SECS,
            cause: RetryCauseView::ConnectFailed,
        };
        let connect = SupervisorActionView::Connect(text);
        let tail = retries(text, fewer) + rest;
        assert(retries(text, count) + rest =~= seq![wait] + (seq![connect] + tail));
        lemma_waits_unfold(wait, seq![connect] + tail);
        lemma_waits_unfold(connect, tail);
        lemma_retries_wait_each_time(text, fewer, rest);
        assert(Seq::new(count, |i: int| RETRY_DELAY_SECS) + waits(rest) =~= seq![RETRY_DELAY_SECS]
            + (Seq::new(fewer, |i: int| RETRY_DELAY_SECS) + waits(rest)));
    }
}

/// Retries take as long as there are failures, and no longer. For a server
/// whose address makes the request target `text` and every number `count`: when
/// `count` connection attempts fail and the next one succeeds, the supervisor
/// makes `count + 1` attempts in all, waits exactly `count` times in between,
/// each time for the retry delay and each time before it attempts anew, and
/// then starts the session.
pub proof fn lemma_session_after_failures(text: Seq<char>, count: nat)
    ensures
        ({
            let signals = seq![Signal::Start] + failed_attempts(count) + seq![Signal::Connected];
            let (phase, actions) = supervisor_run(Phase::Idle, signals, Ok(text));
            &&& phase == Phase::InSession
            &&& actions == seq![SupervisorActionView::Connect(text)] + retries(text, count)
                + seq![SupervisorActionView::RunSession]
            &&& waits(actions) == Seq::new(count, |i: int| RETRY_DELAY_SECS)
            &&& attempts(actions) == count + 1
        }),
{
    let connect = SupervisorActionView::Connect(text);
    let run_session = SupervisorActionView::RunSession;
    let signals = seq![Signal::Start] + failed_attempts(count) + seq![Signal::Connected];
    let success = seq![Signal::Connected];
    let none = Seq::<Signal>::empty();
    assert(signals =~= seq![Signal::Start] + (failed_attempts(count) + success));
    lemma_supervisor_run_unfold(
        Phase::Idle,
        Signal::Start,
        failed_attempts(count) + success,
        Ok(text),
    );
    lemma_failures_are_retried(text, count, success);
    assert(success =~= seq![Signal::Connected] + none);
    lemma_supervisor_run_unfold(Phase::Connecting, Signal::Connected, none, Ok(text));
    let session = supervisor_run(Phase::Connecting, success, Ok(text));
    assert(session.1 =~= seq![run_session]);
    let actions = supervisor_run(Phase::Idle, signals, Ok(text)).1;
    assert(actions =~= seq![connect] + retries(text, count) + seq![run_session]);
    assert(actions =~= seq![connect] + (retries(text, count) + seq![run_session]));
    lemma_waits_unfold(connect, retries(text, count) + seq![run_session]);
    lemma_retries_wait_each_time(text, count, seq![run_session]);
    lemma_waits_unfold(run_session, Seq::empty());
    assert(seq![run_session] =~= seq![run_session] + Seq::empty());
    assert(waits(Seq::<SupervisorActionView>::empty()) =~= Seq::empty());
    assert(waits(actions) =~= Seq::new(count, |i: int| RETRY_DELAY_SECS));
}

/// No attempt is made before the retry delay is over. While the delay runs,
/// nothing but its end and a shutdown moves the supervisor: it answers every
/// other signal by holding on, and makes no connection attempt.
pub proof fn lemma_backoff_outlasts_other_signals(
    signals: Seq<Signal>,
    target: Result<Seq<char>, Seq<char>>,
)
    requires
        forall|i: int|
            0 <= i < signals.len() ==> signals[i] != Signal::DelayElapsed && signals[i]
                != Signal::Shutdown,
    ensures
        supervisor_run(Phase::Backoff, signals, target) == (
            Phase::Backoff,
            Seq::new(signals.len(), |i: int| SupervisorActionView::Hold),
        ),
    decreases signals.len(),
{
    if signals.len() == 0 {
        assert(supervisor_run(Phase::Backoff, signals, target).1 =~= Seq::new(
            signals.len(),
            |i: int| SupervisorActionView::Hold,
        ));
    } else {
        let later = signals.drop_first();
        assert(signals.first() == signals[0]);
        assert forall|i: int| 0 <= i < later.len() implies later[i] != Signal::DelayElapsed
            && later[i] != Signal::Shutdown by {
            assert(later[i] == signals[i + 1]);
        }
        lemma_backoff_outlasts_other_signals(later, target);
        assert(supervisor_run(Phase::Backoff, signals, target).1 =~= Seq::new(
            signals.len(),
            |i: int| SupervisorActionView::Hold,
        ));
    }
}

/// The end of a session leads back into the loop. Whichever pump of a
/// running session exits first, the supervisor has the other one stopped,
/// and once both are gone it goes to the head of the loop at once: with an
/// address that makes the request target `text` it attempts a new connection,
/// and the success of that attempt starts a new session.
pub proof fn lemma_session_end_reconnects(text: Seq<char>, read_pump_first: bool)
    ensures
        ({
            let exits = if read_pump_first {
                seq![Signal::ReadPumpExited, Signal::WritePumpExited]
            } else {
                seq![Signal::WritePumpExited, Signal::ReadPumpExited]
            };
            let teardown = if read_pump_first {
                SupervisorActionView::CancelWritePump
            } else {
                SupervisorActionView::CancelReadPump
            };
            supervisor_run(Phase::InSession, exits + seq![Signal::Connected], Ok(text)) == (
                Phase::InSession,
                seq![
                    teardown,
                    SupervisorActionView::Connect(text),
                    SupervisorActionView::RunSession,
                ],
            )
        }),
{
    let none = Seq::<Signal>::empty();
    let first = if read_pump_first {
        Signal::ReadPumpExited
    } else {
        Signal::WritePumpExited
    };
    let second = if read_pump_first {
        Signal::WritePumpExited
    } else {
        Signal::ReadPumpExited
    };
    let exits = seq![first, second];
    let signals = exits + seq![Signal::Connected];
    assert(signals =~= seq![first] + (seq![second] + (seq![Signal::Connected] + none)));
    let waiting = supervise(Phase::InSession, first, Ok(text)).0;
    lemma_supervisor_run_unfold(
        Phase::InSession,
        first,
        seq![second] + (seq![Signal::Connected] + none),
        Ok(text),
    );
    lemma_supervisor_run_unfold(waiting, second, seq![Signal::Connected] + none, Ok(text));
    lemma_supervisor_run_unfold(Phase::Connecting, Signal::Connected, none, Ok(text));
    let teardown = supervise(Phase::InSession, first, Ok(text)).1;
    assert(supervisor_run(Phase::InSession, signals, Ok(text)).1 =~= seq![
        teardown,
        SupervisorActionView::Connect(text),
        SupervisorActionView::RunSession,
    ]);
    if read_pump_first {
        assert(exits =~= seq![Signal::ReadPumpExited, Signal::WritePumpExited]);
    } else {
        assert(exits =~= seq![Signal::WritePumpExited, Signal::ReadPumpExited]);
    }
}

/// A shutdown ends the supervisor at once and for good: from every phase it
/// answers a shutdown by stopping, and once stopped it answers every signal
/// by stopping and stays stopped.
pub proof fn lemma_shutdown_is_final(
    phase: Phase,
    signals: Seq<Signal>,
    target: Result<Seq<char>, Seq<char>>,
)
    ensures
        supervise(phase, Signal::Shutdown, target) == (
            Phase::Stopped,
            SupervisorActionView::Stop,
        ),
        supervisor_run(Phase::Stopped, signals, target) == (
            Phase::Stopped,
            Seq::new(signals.len(), |i: int| SupervisorActionView::Stop),
        ),
    decreases signals.len(),
{
    if signals.len() > 0 {
        lemma_shutdown_is_final(phase, signals.drop_first(), target);
    }
    assert(supervisor_run(Phase::Stopped, signals, target).1 =~= Seq::new(
        signals.len(),
        |i: int| SupervisorActionView::Stop,
    ));
}

/// Nothing but a shutdown ends the supervisor. Whatever fails on the way to
/// a connection or within a session, it stays in its loop: over every
/// sequence of signals without a shutdown, a supervisor that has not stopped
/// does not stop and never asks for its task to end.
pub proof fn lemma_only_shutdown_stops(
    phase: Phase,
    signals: Seq<Signal>,
    target: Result<Seq<char>, Seq<char>>,
)
    requires
        !(phase is Stopped),
        forall|i: int| 0 <= i < signals.len() ==> signals[i] != Signal::Shutdown,
    ensures
        !(supervisor_run(phase, signals, target).0 is Stopped),
        forall|i: int|
            0 <= i < supervisor_run(phase, signals, target).1.len() ==> !(#[trigger] supervisor_run(
                phase,
                signals,
                target,
            ).1[i] is Stop),
        supervisor_run(phase, signals, target).1.len() == signals.len(),
    decreases signals.len(),
{
    if signals.len() > 0 {
        let later = signals.drop_first();
        let (next, action) = supervise(phase, signals.first(), target);
        assert(signals.first() == signals[0]);
        assert forall|i: int| 0 <= i < later.len() implies later[i] != Signal::Shutdown by {
            assert(later[i] == signals[i + 1]);
        }
        lemma_only_shutdown_stops(next, later, target);
        let rest = supervisor_run(next, later, target).1;
        let actions = supervisor_run(phase, signals, target).1;
        assert(actions == seq![action] + rest);
        assert forall|i: int| 0 <= i < actions.len() implies !(#[trigger] actions[i] is Stop) by {
            if i > 0 {
                assert(actions[i] == rest[i - 1]);
            }
        }
    }
}

} // verus!
