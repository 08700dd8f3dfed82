use tokio::runtime::Builder;
use tokio::sync::mpsc::{Receiver, Sender};
use tokio::task::yield_now;
use ws_client::dispatch::{generate_outgoing_messages, OutboundAction, OutboundEvent, Producer};
use ws_client::message::Message;
use ws_client::pump::{Pump, PumpAction, PumpEvent, StopReason};
use ws_client::vcp_config::Endpoint;
use ws_client::web_socket_client::{SupervisorAction, SupervisorEvent, WebSocketClient};

fn text(body: &str) -> Message {
    Message::Text(body.to_string())
}

/// The application's producing end and the write pump's consuming end of an
/// outbound queue with the given number of slots.
fn outbound_queue(capacity: usize) -> (Sender<Message>, Receiver<Message>) {
    let endpoint = Endpoint::parse("ws://localhost:9001/").unwrap();
    let (mut client, _incoming_rx, outgoing_tx) =
        WebSocketClient::with_capacity(endpoint, capacity).unwrap();
    let _ = client.connect_and_run(SupervisorEvent::Start);
    match client.connect_and_run(SupervisorEvent::Connected) {
        SupervisorAction::RunSession(pair) => (outgoing_tx, pair.outgoing_rx),
        other => panic!("expected a session, got {:?}", other),
    }
}

#[test]
fn third_push_waits_until_a_slot_is_freed() {
    let (outgoing_tx, mut outgoing_rx) = outbound_queue(2);
    let runtime = Builder::new_current_thread().build().unwrap();
    runtime.block_on(async move {
        outgoing_tx.send(text("a")).await.unwrap();
        outgoing_tx.send(text("b")).await.unwrap();
        let pusher = outgoing_tx.clone();
        let pending = tokio::spawn(async move { pusher.send(text("c")).await });
        for _ in 0..20 {
            yield_now().await;
        }
        assert!(!pending.is_finished());
        assert_eq!(outgoing_rx.len(), 2);
        assert_eq!(outgoing_rx.recv().await, Some(text("a")));
        assert_eq!(pending.await.unwrap(), Ok(()));
        assert_eq!(outgoing_rx.recv().await, Some(text("b")));
        assert_eq!(outgoing_rx.recv().await, Some(text("c")));
        assert!(outgoing_rx.is_empty());
    });
}

#[test]
fn push_to_a_full_queue_blocks_until_the_consumer_pops() {
    let (outgoing_tx, mut outgoing_rx) = outbound_queue(1);
    let runtime = Builder::new_current_thread().build().unwrap();
    runtime.block_on(async move {
        let producer = tokio::spawn(async move {
            let mut producer = Producer::new();
            let mut sent = Vec::new();
            for _ in 0..3 {
                match generate_outgoing_messages(&mut producer, OutboundEvent::Tick) {
                    OutboundAction::Push(message) => {
                        outgoing_tx.send(message).await.unwrap();
                        sent.push(producer.next - 1);
                    }
                    other => panic!("expected a push, got {:?}", other),
                }
                assert_eq!(
                    generate_outgoing_messages(&mut producer, OutboundEvent::Pushed),
                    OutboundAction::AwaitTick
                );
            }
            sent
        });
        for _ in 0..20 {
            yield_now().await;
        }
        assert!(!producer.is_finished());
        assert_eq!(outgoing_rx.len(), 1);
        assert_eq!(outgoing_rx.recv().await, Some(text("Counter message 0")));
        for _ in 0..20 {
            yield_now().await;
        }
        assert!(!producer.is_finished());
        assert_eq!(outgoing_rx.len(), 1);
        assert_eq!(outgoing_rx.recv().await, Some(text("Counter message 1")));
        assert_eq!(outgoing_rx.recv().await, Some(text("Counter message 2")));
        assert_eq!(producer.await.unwrap(), vec![0, 1, 2]);
        assert_eq!(outgoing_rx.recv().await, None);
    });
}

#[test]
fn write_pump_drains_the_outbound_queue_in_order() {
    let (outgoing_tx, mut outgoing_rx) = outbound_queue(4);
    let runtime = Builder::new_current_thread().build().unwrap();
    let wire = runtime.block_on(async move {
        let feeder = tokio::spawn(async move {
            for number in 0..10u32 {
                outgoing_tx.send(text(&format!("out {}", number))).await.unwrap();
            }
        });
        let mut pump = Pump::write();
        let mut wire = Vec::new();
        let mut action = PumpAction::Fetch;
        let reason = loop {
            let event = match action {
                PumpAction::Fetch => match outgoing_rx.recv().await {
                    Some(message) => PumpEvent::Fetched(message),
                    None => PumpEvent::SourceClosed,
                },
                PumpAction::Deliver(message) => {
                    wire.push(message);
                    PumpEvent::Delivered
                }
                PumpAction::Stop(reason) => break reason,
                PumpAction::Hold => panic!("no operation was outstanding"),
            };
            action = pump.step(event);
        };
        feeder.await.unwrap();
        assert_eq!(reason, StopReason::QueueClosed);
        wire
    });
    let expected: Vec<Message> = (0..10u32).map(|number| text(&format!("out {}", number))).collect();
    assert_eq!(wire, expected);
}

#[test]
fn read_pump_stops_when_the_application_is_gone() {
    let endpoint = Endpoint::parse("ws://localhost:9001/").unwrap();
    let (mut client, incoming_rx, _outgoing_tx) = WebSocketClient::new(endpoint);
    let _ = client.connect_and_run(SupervisorEvent::Start);
    let pair = match client.connect_and_run(SupervisorEvent::Connected) {
        SupervisorAction::RunSession(pair) => pair,
        other => panic!("expected a session, got {:?}", other),
    };
    drop(incoming_rx);
    let runtime = Builder::new_current_thread().build().unwrap();
    runtime.block_on(async move {
        let mut pump = pair.read_pump;
        let message = match pump.step(PumpEvent::Fetched(text("nobody listens"))) {
            PumpAction::Deliver(message) => message,
            other => panic!("expected a delivery, got {:?}", other),
        };
        let event = match pair.incoming_tx.send(message).await {
            Ok(()) => PumpEvent::Delivered,
            Err(_) => PumpEvent::SinkFailed,
        };
        assert_eq!(pump.step(event), PumpAction::Stop(StopReason::QueueClosed));
    });
}
