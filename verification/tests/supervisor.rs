use tokio::sync::mpsc::error::{TryRecvError, TrySendError};
use ws_client::channel::{MAX_QUEUE_CAPACITY, QUEUE_CAPACITY};
use ws_client::message::Message;
use ws_client::pump::Pump;
use ws_client::vcp_config::{AddressParseError, Endpoint};
use ws_client::web_socket_client::{
    attempt, Phase, PumpPair, RetryCause, SupervisorAction, SupervisorEvent, WebSocketClient,
    RETRY_DELAY_SECS,
};

const ADDRESS: &str = "ws://localhost:9001/";

fn endpoint() -> Endpoint {
    Endpoint::parse(ADDRESS).unwrap()
}

fn text(body: &str) -> Message {
    Message::Text(body.to_string())
}

fn expect_connect(action: SupervisorAction) {
    match action {
        SupervisorAction::Connect(target) => assert_eq!(target, ADDRESS),
        other => panic!("expected a connection attempt, got {:?}", other),
    }
}

fn expect_retry_wait(action: SupervisorAction) {
    match action {
        SupervisorAction::Wait { seconds, cause } => {
            assert_eq!(seconds, 2);
            assert_eq!(cause, RetryCause::ConnectFailed);
        }
        other => panic!("expected a wait, got {:?}", other),
    }
}

fn expect_session(action: SupervisorAction) -> PumpPair {
    match action {
        SupervisorAction::RunSession(pair) => {
            assert_eq!(pair.read_pump, Pump::read());
            assert_eq!(pair.write_pump, Pump::write());
            pair
        }
        other => panic!("expected a session, got {:?}", other),
    }
}

fn in_session() -> (WebSocketClient, PumpPair) {
    let (mut client, _incoming_rx, _outgoing_tx) = WebSocketClient::new(endpoint());
    expect_connect(client.connect_and_run(SupervisorEvent::Start));
    let pair = expect_session(client.connect_and_run(SupervisorEvent::Connected));
    (client, pair)
}

#[test]
fn retry_delay_is_two_seconds() {
    assert_eq!(RETRY_DELAY_SECS, 2);
}

#[test]
fn shutdown_grace_is_two_seconds() {
    assert_eq!(ws_client::SHUTDOWN_GRACE_SECS, 2);
}

#[test]
fn new_client_is_idle_with_queues_of_a_hundred_slots() {
    let (client, incoming_rx, outgoing_tx) = WebSocketClient::new(endpoint());
    assert_eq!(client.phase(), Phase::Idle);
    assert_eq!(client.server_url().as_str(), ADDRESS);
    assert_eq!(QUEUE_CAPACITY, 100);
    assert_eq!(client.queue_capacity(), 100);
    assert_eq!(incoming_rx.max_capacity(), 100);
    assert_eq!(outgoing_tx.max_capacity(), 100);
    assert_eq!(outgoing_tx.capacity(), 100);
}

#[test]
fn queues_take_the_capacity_they_are_given() {
    let (client, incoming_rx, outgoing_tx) = WebSocketClient::with_capacity(endpoint(), 2).unwrap();
    assert_eq!(client.phase(), Phase::Idle);
    assert_eq!(client.queue_capacity(), 2);
    assert_eq!(incoming_rx.max_capacity(), 2);
    assert_eq!(outgoing_tx.max_capacity(), 2);
}

#[test]
fn no_client_without_a_slot_or_with_too_many() {
    assert!(WebSocketClient::with_capacity(endpoint(), 0).is_none());
    assert!(WebSocketClient::with_capacity(endpoint(), MAX_QUEUE_CAPACITY + 1).is_none());
    assert!(WebSocketClient::with_capacity(endpoint(), usize::MAX).is_none());
    assert!(WebSocketClient::with_capacity(endpoint(), 1).is_some());
    assert_eq!(MAX_QUEUE_CAPACITY, usize::MAX >> 3);
}

#[test]
fn start_leads_to_a_connection_attempt() {
    let (mut client, _incoming_rx, _outgoing_tx) = WebSocketClient::new(endpoint());
    expect_connect(client.connect_and_run(SupervisorEvent::Start));
    assert_eq!(client.phase(), Phase::Connecting);
}

#[test]
fn every_failed_attempt_costs_one_wait_of_the_retry_delay() {
    for failures in 0..6usize {
        let (mut client, _incoming_rx, _outgoing_tx) = WebSocketClient::new(endpoint());
        let mut attempts = 0;
        let mut waits = 0;
        expect_connect(client.connect_and_run(SupervisorEvent::Start));
        attempts += 1;
        for _ in 0..failures {
            expect_retry_wait(client.connect_and_run(SupervisorEvent::ConnectFailed));
            waits += 1;
            assert_eq!(client.phase(), Phase::Backoff);
            expect_connect(client.connect_and_run(SupervisorEvent::DelayElapsed));
            attempts += 1;
            assert_eq!(client.phase(), Phase::Connecting);
        }
        let _pair = expect_session(client.connect_and_run(SupervisorEvent::Connected));
        assert_eq!(client.phase(), Phase::InSession);
        assert_eq!(waits, failures);
        assert_eq!(attempts, failures + 1);
    }
}

#[test]
fn no_attempt_is_made_while_the_delay_runs() {
    let (mut client, _incoming_rx, _outgoing_tx) = WebSocketClient::new(endpoint());
    expect_connect(client.connect_and_run(SupervisorEvent::Start));
    expect_retry_wait(client.connect_and_run(SupervisorEvent::ConnectFailed));
    assert!(matches!(client.connect_and_run(SupervisorEvent::Start), SupervisorAction::Hold));
    assert!(matches!(client.connect_and_run(SupervisorEvent::Connected), SupervisorAction::Hold));
    assert!(matches!(client.connect_and_run(SupervisorEvent::ConnectFailed), SupervisorAction::Hold));
    assert!(matches!(client.connect_and_run(SupervisorEvent::ReadPumpExited), SupervisorAction::Hold));
    assert_eq!(client.phase(), Phase::Backoff);
    expect_connect(client.connect_and_run(SupervisorEvent::DelayElapsed));
}

#[test]
fn session_gets_the_queue_ends_of_the_client() {
    let (mut client, mut incoming_rx, outgoing_tx) = WebSocketClient::new(endpoint());
    expect_connect(client.connect_and_run(SupervisorEvent::Start));
    let mut pair = expect_session(client.connect_and_run(SupervisorEvent::Connected));
    assert!(matches!(incoming_rx.try_recv(), Err(TryRecvError::Empty)));
    pair.incoming_tx.try_send(text("from the wire")).unwrap();
    assert_eq!(incoming_rx.try_recv(), Ok(text("from the wire")));
    assert!(matches!(pair.outgoing_rx.try_recv(), Err(TryRecvError::Empty)));
    outgoing_tx.try_send(text("to the wire")).unwrap();
    assert_eq!(pair.outgoing_rx.try_recv(), Ok(text("to the wire")));
    assert_eq!(pair.incoming_tx.max_capacity(), 100);
    assert_eq!(pair.outgoing_rx.max_capacity(), 100);
}

#[test]
fn read_pump_exit_ends_the_session_and_reconnects() {
    let (mut client, pair) = in_session();
    assert!(matches!(
        client.connect_and_run(SupervisorEvent::ReadPumpExited),
        SupervisorAction::CancelWritePump
    ));
    assert_eq!(client.phase(), Phase::AwaitingWritePump);
    expect_connect(client.connect_and_run(SupervisorEvent::WritePumpExited(pair.outgoing_rx)));
    assert_eq!(client.phase(), Phase::Connecting);
    let _second = expect_session(client.connect_and_run(SupervisorEvent::Connected));
    assert_eq!(client.phase(), Phase::InSession);
}

#[test]
fn write_pump_exit_ends_the_session_and_reconnects() {
    let (mut client, pair) = in_session();
    assert!(matches!(
        client.connect_and_run(SupervisorEvent::WritePumpExited(pair.outgoing_rx)),
        SupervisorAction::CancelReadPump
    ));
    assert_eq!(client.phase(), Phase::AwaitingReadPump);
    expect_connect(client.connect_and_run(SupervisorEvent::ReadPumpExited));
    let _second = expect_session(client.connect_and_run(SupervisorEvent::Connected));
    assert_eq!(client.phase(), Phase::InSession);
}

#[test]
fn every_session_works_on_the_same_two_queues() {
    let (mut client, mut incoming_rx, outgoing_tx) = WebSocketClient::new(endpoint());
    expect_connect(client.connect_and_run(SupervisorEvent::Start));
    let first = expect_session(client.connect_and_run(SupervisorEvent::Connected));
    first.incoming_tx.try_send(text("first session")).unwrap();
    let first_producer = first.incoming_tx;
    let _ = client.connect_and_run(SupervisorEvent::WritePumpExited(first.outgoing_rx));
    expect_connect(client.connect_and_run(SupervisorEvent::ReadPumpExited));
    let mut second = expect_session(client.connect_and_run(SupervisorEvent::Connected));
    assert!(second.incoming_tx.same_channel(&first_producer));
    assert!(!second.incoming_tx.same_channel(&outgoing_tx));
    second.incoming_tx.try_send(text("second session")).unwrap();
    assert_eq!(incoming_rx.try_recv(), Ok(text("first session")));
    assert_eq!(incoming_rx.try_recv(), Ok(text("second session")));
    assert!(matches!(incoming_rx.try_recv(), Err(TryRecvError::Empty)));
    outgoing_tx.try_send(text("after the reconnect")).unwrap();
    assert_eq!(second.outgoing_rx.try_recv(), Ok(text("after the reconnect")));
}

#[test]
fn inbound_and_outbound_are_two_queues() {
    let (mut client, mut incoming_rx, outgoing_tx) = WebSocketClient::new(endpoint());
    expect_connect(client.connect_and_run(SupervisorEvent::Start));
    let mut pair = expect_session(client.connect_and_run(SupervisorEvent::Connected));
    assert!(!pair.incoming_tx.same_channel(&outgoing_tx));
    outgoing_tx.try_send(text("outbound")).unwrap();
    assert!(matches!(incoming_rx.try_recv(), Err(TryRecvError::Empty)));
    pair.incoming_tx.try_send(text("inbound")).unwrap();
    assert_eq!(pair.outgoing_rx.try_recv(), Ok(text("outbound")));
    assert!(matches!(pair.outgoing_rx.try_recv(), Err(TryRecvError::Empty)));
    assert_eq!(incoming_rx.try_recv(), Ok(text("inbound")));
}

#[test]
fn outbound_queue_survives_a_reconnect() {
    let (mut client, _incoming_rx, outgoing_tx) = WebSocketClient::new(endpoint());
    expect_connect(client.connect_and_run(SupervisorEvent::Start));
    let first = expect_session(client.connect_and_run(SupervisorEvent::Connected));
    outgoing_tx.try_send(text("queued before the loss")).unwrap();
    let _ = client.connect_and_run(SupervisorEvent::ReadPumpExited);
    expect_connect(client.connect_and_run(SupervisorEvent::WritePumpExited(first.outgoing_rx)));
    let mut second = expect_session(client.connect_and_run(SupervisorEvent::Connected));
    assert_eq!(second.outgoing_rx.try_recv(), Ok(text("queued before the loss")));
}

#[test]
fn many_sessions_follow_one_another() {
    let (mut client, mut pair) = in_session();
    for _ in 0..10 {
        let _ = client.connect_and_run(SupervisorEvent::ReadPumpExited);
        expect_connect(client.connect_and_run(SupervisorEvent::WritePumpExited(pair.outgoing_rx)));
        expect_retry_wait(client.connect_and_run(SupervisorEvent::ConnectFailed));
        expect_connect(client.connect_and_run(SupervisorEvent::DelayElapsed));
        pair = expect_session(client.connect_and_run(SupervisorEvent::Connected));
    }
    assert_eq!(client.phase(), Phase::InSession);
}

#[test]
fn address_that_is_no_request_target_is_retried_after_the_delay() {
    let long = format!("ws://localhost/{}", "a".repeat(70_000));
    let (mut client, _incoming_rx, _outgoing_tx) =
        WebSocketClient::new(Endpoint::parse(&long).unwrap());
    for event in [SupervisorEvent::Start, SupervisorEvent::DelayElapsed, SupervisorEvent::DelayElapsed] {
        match client.connect_and_run(event) {
            SupervisorAction::Wait { seconds, cause } => {
                assert_eq!(seconds, 2);
                assert_eq!(cause, RetryCause::InvalidTarget("uri too long".to_string()));
            }
            other => panic!("expected a wait, got {:?}", other),
        }
        assert_eq!(client.phase(), Phase::Backoff);
    }
}

#[test]
fn attempt_connects_to_a_usable_target() {
    let (phase, action) = attempt(Ok("ws://example.org/".to_string()));
    assert_eq!(phase, Phase::Connecting);
    match action {
        SupervisorAction::Connect(target) => assert_eq!(target, "ws://example.org/"),
        other => panic!("expected a connection attempt, got {:?}", other),
    }
}

#[test]
fn attempt_waits_on_a_refused_target() {
    let (phase, action) = attempt(Err(AddressParseError { reason: "invalid format".to_string() }));
    assert_eq!(phase, Phase::Backoff);
    match action {
        SupervisorAction::Wait { seconds, cause } => {
            assert_eq!(seconds, RETRY_DELAY_SECS);
            assert_eq!(cause, RetryCause::InvalidTarget("invalid format".to_string()));
        }
        other => panic!("expected a wait, got {:?}", other),
    }
}

#[test]
fn shutdown_stops_the_supervisor_in_every_phase() {
    let (mut idle, _a, _b) = WebSocketClient::new(endpoint());
    assert!(matches!(idle.connect_and_run(SupervisorEvent::Shutdown), SupervisorAction::Stop));
    assert_eq!(idle.phase(), Phase::Stopped);

    let (mut connecting, _c, _d) = WebSocketClient::new(endpoint());
    expect_connect(connecting.connect_and_run(SupervisorEvent::Start));
    assert!(matches!(connecting.connect_and_run(SupervisorEvent::Shutdown), SupervisorAction::Stop));

    let (mut waiting, _e, _f) = WebSocketClient::new(endpoint());
    expect_connect(waiting.connect_and_run(SupervisorEvent::Start));
    expect_retry_wait(waiting.connect_and_run(SupervisorEvent::ConnectFailed));
    assert!(matches!(waiting.connect_and_run(SupervisorEvent::Shutdown), SupervisorAction::Stop));

    let (mut running, pair) = in_session();
    assert!(matches!(running.connect_and_run(SupervisorEvent::Shutdown), SupervisorAction::Stop));
    assert_eq!(running.phase(), Phase::Stopped);
    assert!(matches!(
        running.connect_and_run(SupervisorEvent::WritePumpExited(pair.outgoing_rx)),
        SupervisorAction::Stop
    ));
    assert!(matches!(running.connect_and_run(SupervisorEvent::Start), SupervisorAction::Stop));
    assert!(matches!(running.connect_and_run(SupervisorEvent::DelayElapsed), SupervisorAction::Stop));
    assert_eq!(running.phase(), Phase::Stopped);
}

#[test]
fn events_of_no_outstanding_operation_are_held() {
    let (mut client, _incoming_rx, _outgoing_tx) = WebSocketClient::new(endpoint());
    assert!(matches!(client.connect_and_run(SupervisorEvent::Connected), SupervisorAction::Hold));
    assert!(matches!(client.connect_and_run(SupervisorEvent::DelayElapsed), SupervisorAction::Hold));
    assert_eq!(client.phase(), Phase::Idle);
    expect_connect(client.connect_and_run(SupervisorEvent::Start));
    assert!(matches!(client.connect_and_run(SupervisorEvent::Start), SupervisorAction::Hold));
    assert!(matches!(client.connect_and_run(SupervisorEvent::ReadPumpExited), SupervisorAction::Hold));
    assert_eq!(client.phase(), Phase::Connecting);
    let _pair = expect_session(client.connect_and_run(SupervisorEvent::Connected));
    assert!(matches!(client.connect_and_run(SupervisorEvent::Connected), SupervisorAction::Hold));
    assert!(matches!(client.connect_and_run(SupervisorEvent::ConnectFailed), SupervisorAction::Hold));
    assert_eq!(client.phase(), Phase::InSession);
}

#[test]
fn full_queue_refuses_without_dropping() {
    let (mut client, _incoming_rx, outgoing_tx) =
        WebSocketClient::with_capacity(endpoint(), 1).unwrap();
    expect_connect(client.connect_and_run(SupervisorEvent::Start));
    let mut pair = expect_session(client.connect_and_run(SupervisorEvent::Connected));
    outgoing_tx.try_send(text("first")).unwrap();
    match outgoing_tx.try_send(text("second")) {
        Err(TrySendError::Full(message)) => assert_eq!(message, text("second")),
        other => panic!("expected a full queue, got {:?}", other),
    }
    assert_eq!(pair.outgoing_rx.try_recv(), Ok(text("first")));
    outgoing_tx.try_send(text("second")).unwrap();
    assert_eq!(pair.outgoing_rx.try_recv(), Ok(text("second")));
}
