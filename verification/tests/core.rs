//! Client-core scenarios: handshake, dispatch order, fatal conditions.
use casper_sdk_rs::client_core::{ClientCore, CommandStep, StreamItem};
use casper_sdk_rs::types::{CoreCommand, EventType, ProtocolVersion, ProxyEventInfo, SseData};
use casper_sdk_rs::ClientError;

fn frame(data: &str) -> ProxyEventInfo {
    ProxyEventInfo {
        kind: String::new(),
        data: data.to_string(),
        id: None,
        retry: None,
    }
}

fn handshake_frame() -> ProxyEventInfo {
    frame("{\"ApiVersion\":\"2.0.0\"}")
}

fn block_added_frame(height: u64) -> ProxyEventInfo {
    frame(&format!("{{\"BlockAdded\":{{\"height\":{}}}}}", height))
}

#[test]
fn test_client_core_connect_and_handshake() {
    let mut core = ClientCore::new("http://localhost:18101/events");

    let result = core.connect(StreamItem::Event(handshake_frame()));
    assert!(result.is_ok(), "Connection should succeed");
    assert!(core.is_connected(), "Should be marked as connected");

    let event = core
        .run_once(StreamItem::Event(block_added_frame(1)))
        .expect("Should get event");
    assert!(event.data.contains("BlockAdded"));
    match core.handle_event(event) {
        Ok(plan) => assert!(matches!(plan.event, SseData::BlockAdded(_))),
        Err(err) => panic!("Unexpected error: {:?}", err),
    }
}

#[test]
fn test_client_core_double_handshake() {
    let mut core = ClientCore::new("http://localhost:18101/events");
    core.connect(StreamItem::Event(handshake_frame())).unwrap();

    let event = core
        .run_once(StreamItem::Event(handshake_frame()))
        .expect("Should get event");
    match core.handle_event(event) {
        Ok(_) => panic!("Expected error"),
        Err(ClientError::UnexpectedHandshake) => (),
        Err(err) => panic!("Unexpected error: {:?}", err),
    }
}

#[test]
fn test_client_core_add_on_event_handler_remove_on_event_handler() {
    let mut core = ClientCore::new("http://localhost:18101/events");
    core.connect(StreamItem::Event(handshake_frame())).unwrap();

    let handler_id = core.add_on_event_handler(EventType::BlockAdded);
    assert!(handler_id == 0, "Handler ID should be assigned");

    // the handler is listed once per matching event
    let event = core
        .run_once(StreamItem::Event(block_added_frame(1)))
        .unwrap();
    let plan = core.handle_event(event).unwrap();
    assert_eq!(plan.handler_ids, vec![handler_id]);

    let event = core
        .run_once(StreamItem::Event(block_added_frame(2)))
        .unwrap();
    let plan = core.handle_event(event).unwrap();
    assert_eq!(plan.handler_ids, vec![handler_id]);

    // after removal no event reaches it
    let res = core.remove_handler(handler_id);
    assert!(res);

    let event = core
        .run_once(StreamItem::Event(block_added_frame(3)))
        .unwrap();
    let plan = core.handle_event(event).unwrap();
    assert!(plan.handler_ids.is_empty(), "removed handler must not run");
}

#[test]
fn handshake_failure_leaves_disconnected() {
    let mut core = ClientCore::new("u");
    let r = core.connect(StreamItem::Event(block_added_frame(1)));
    assert!(matches!(r, Err(ClientError::InvalidHandshake)));
    assert!(!core.is_connected());
}

#[test]
fn handshake_end_of_stream() {
    let mut core = ClientCore::new("u");
    let r = core.connect(StreamItem::Closed);
    assert!(matches!(r, Err(ClientError::StreamExhausted)));
    assert!(!core.is_connected());
}

#[test]
fn handshake_transport_fault_keeps_message() {
    let mut core = ClientCore::new("u");
    let r = core.connect(StreamItem::Failed("socket reset".to_string()));
    match r {
        Err(ClientError::EventStreamError(m)) => assert_eq!(m, "socket reset"),
        other => panic!("Unexpected outcome: {:?}", other),
    }
}

#[test]
fn handshake_undecodable_first_event() {
    let mut core = ClientCore::new("u");
    let r = core.connect(StreamItem::Event(frame("not json")));
    assert!(matches!(r, Err(ClientError::DeserializationError(_))));
    assert!(!core.is_connected());
}

#[test]
fn run_once_while_disconnected() {
    let core = ClientCore::new("u");
    let r = core.run_once(StreamItem::Event(handshake_frame()));
    assert!(matches!(r, Err(ClientError::NoEventStreamAvailable)));
}

#[test]
fn run_once_maps_faults_one_to_one() {
    let mut core = ClientCore::new("u");
    core.connect(StreamItem::Event(handshake_frame())).unwrap();
    assert!(matches!(
        core.run_once(StreamItem::Closed),
        Err(ClientError::StreamExhausted)
    ));
    match core.run_once(StreamItem::Failed("late fault".to_string())) {
        Err(ClientError::EventStreamError(m)) => assert_eq!(m, "late fault"),
        other => panic!("Unexpected outcome: {:?}", other),
    }
}

#[test]
fn dispatch_order_per_event_and_across_events() {
    // M handlers registered in order, N events of that type: each event
    // triggers the handlers in registration order, events in arrival order.
    let mut core = ClientCore::new("u");
    core.connect(StreamItem::Event(handshake_frame())).unwrap();
    let h0 = core.add_on_event_handler(EventType::FinalitySignature);
    let h1 = core.add_on_event_handler(EventType::FinalitySignature);

    let mut trace: Vec<(usize, u64)> = Vec::new();
    for n in 0..3usize {
        let doc = format!("{{\"FinalitySignature\":{{\"seq\":{}}}}}", n);
        let event = core.run_once(StreamItem::Event(frame(&doc))).unwrap();
        let plan = core.handle_event(event).unwrap();
        for id in plan.handler_ids {
            trace.push((n, id));
        }
    }
    assert_eq!(
        trace,
        vec![(0, h0), (0, h1), (1, h0), (1, h1), (2, h0), (2, h1)]
    );
}

#[test]
fn scenario_block_added_and_finality_signature_counts() {
    // feed: ApiVersion, BlockAdded(10), BlockAdded(11), FinalitySignature,
    // BlockAdded(12); one handler per type registered before connecting.
    let mut core = ClientCore::new("u");
    let block_handler = core.add_on_event_handler(EventType::BlockAdded);
    let sig_handler = core.add_on_event_handler(EventType::FinalitySignature);

    core.connect(StreamItem::Event(handshake_frame())).unwrap();

    let feed = [
        block_added_frame(10),
        block_added_frame(11),
        frame("{\"FinalitySignature\":{\"signature\":\"x\"}}"),
        block_added_frame(12),
    ];
    let mut block_calls = 0;
    let mut sig_calls = 0;
    for item in feed {
        let event = core.run_once(StreamItem::Event(item)).unwrap();
        let plan = core.handle_event(event).unwrap();
        for id in plan.handler_ids {
            if id == block_handler {
                block_calls += 1;
            } else if id == sig_handler {
                sig_calls += 1;
            }
        }
    }
    assert_eq!(block_calls, 3, "BlockAdded handler runs exactly 3 times");
    assert_eq!(sig_calls, 1, "FinalitySignature handler runs exactly once");
}

#[test]
fn scenario_second_handshake_halts_dispatch() {
    let mut core = ClientCore::new("u");
    // even a handler registered for the handshake type must not fire
    let _ = core.add_on_event_handler(EventType::ApiVersion);
    core.connect(StreamItem::Event(handshake_frame())).unwrap();

    let event = core.run_once(StreamItem::Event(handshake_frame())).unwrap();
    match core.handle_event(event) {
        Err(ClientError::UnexpectedHandshake) => (),
        other => panic!("Unexpected outcome: {:?}", other),
    }
    assert!(!core.is_connected(), "fatal condition ends the connection");
}

#[test]
fn scenario_shutdown_halts_dispatch_and_unblocks_waiters() {
    let mut core = ClientCore::new("u");
    // a caller waiting for an event holds a transient registration
    let waiter = core.add_on_event_handler(EventType::BlockAdded);
    core.connect(StreamItem::Event(handshake_frame())).unwrap();

    let event = core.run_once(StreamItem::Event(frame("\"Shutdown\""))).unwrap();
    match core.handle_event(event) {
        Err(ClientError::NodeShutdown) => (),
        other => panic!("Unexpected outcome: {:?}", other),
    }
    assert!(!core.is_connected());
    // further polling reports a definite error instead of hanging
    assert!(matches!(
        core.run_once(StreamItem::Event(block_added_frame(1))),
        Err(ClientError::NoEventStreamAvailable)
    ));
    // the waiting caller's cleanup still runs and finds its registration
    assert!(core.remove_handler(waiter));
}

#[test]
fn transient_wait_leaves_no_residual_handler() {
    // the wait-for-event pattern: register, observe, always remove
    let mut core = ClientCore::new("u");
    core.connect(StreamItem::Event(handshake_frame())).unwrap();

    // satisfied case: the matching envelope reaches the transient handler
    let transient = core.add_on_event_handler(EventType::BlockAdded);
    let event = core.run_once(StreamItem::Event(block_added_frame(13))).unwrap();
    let plan = core.handle_event(event).unwrap();
    assert!(plan.handler_ids.contains(&transient));
    assert!(matches!(plan.event, SseData::BlockAdded(_)));
    assert!(core.remove_handler(transient));

    // timeout case: nothing matched, cleanup still removes it
    let transient = core.add_on_event_handler(EventType::Step);
    assert!(core.remove_handler(transient));

    // no residual handler fires afterwards
    let event = core.run_once(StreamItem::Event(block_added_frame(14))).unwrap();
    let plan = core.handle_event(event).unwrap();
    assert!(plan.handler_ids.is_empty());
    let event = core
        .run_once(StreamItem::Event(frame("{\"Step\":{\"era\":1}}")))
        .unwrap();
    let plan = core.handle_event(event).unwrap();
    assert!(plan.handler_ids.is_empty());
}

#[test]
fn commands_apply_in_order() {
    let mut core = ClientCore::new("u");
    assert_eq!(
        core.handle_command(CoreCommand::Connect),
        CommandStep::NeedsConnect
    );
    assert_eq!(
        core.handle_command(CoreCommand::AddOnEventHandler(EventType::Fault)),
        CommandStep::HandlerAdded(0)
    );
    assert_eq!(
        core.handle_command(CoreCommand::AddOnEventHandler(EventType::Fault)),
        CommandStep::HandlerAdded(1)
    );
    assert_eq!(
        core.handle_command(CoreCommand::RemoveEventHandler(0)),
        CommandStep::HandlerRemoved(true)
    );
    assert_eq!(
        core.handle_command(CoreCommand::RemoveEventHandler(0)),
        CommandStep::HandlerRemoved(false)
    );
}

#[test]
fn registrations_survive_reconnects() {
    // the registry is independent of connection state
    let mut core = ClientCore::new("u");
    let h = core.add_on_event_handler(EventType::BlockAdded);
    core.connect(StreamItem::Event(handshake_frame())).unwrap();

    let event = core.run_once(StreamItem::Event(frame("\"Shutdown\""))).unwrap();
    assert!(core.handle_event(event).is_err());
    assert!(!core.is_connected());

    core.connect(StreamItem::Event(handshake_frame())).unwrap();
    let event = core.run_once(StreamItem::Event(block_added_frame(5))).unwrap();
    let plan = core.handle_event(event).unwrap();
    assert_eq!(plan.handler_ids, vec![h]);
}

#[test]
fn classify_is_total_and_deterministic() {
    let version = SseData::ApiVersion(ProtocolVersion::from_parts(2, 0, 0));
    assert_eq!(version.event_type(), EventType::ApiVersion);
    assert_eq!(version.event_type(), version.event_type());

    let samples = [
        "{\"SidecarVersion\":\"1\"}",
        "{\"BlockAdded\":{\"height\":1}}",
        "{\"TransactionAccepted\":1}",
        "{\"TransactionProcessed\":1}",
        "{\"TransactionExpired\":1}",
        "{\"Fault\":1}",
        "{\"FinalitySignature\":1}",
        "{\"Step\":1}",
        "\"Shutdown\"",
        "{\"Newcomer\":1}",
    ];
    let expected = [
        EventType::SidecarVersion,
        EventType::BlockAdded,
        EventType::TransactionAccepted,
        EventType::TransactionProcessed,
        EventType::TransactionExpired,
        EventType::Fault,
        EventType::FinalitySignature,
        EventType::Step,
        EventType::Shutdown,
        EventType::Other,
    ];
    for (doc, want) in samples.iter().zip(expected.iter()) {
        let d = casper_sdk_rs::codec::decode_sse_data(doc).unwrap();
        assert_eq!(d.event_type(), *want, "doc {}", doc);
        assert_eq!(d.event_type(), d.event_type());
    }
}
