use block_engine_session::errors::StreamError;
use block_engine_session::inbound::drain_events;
use block_engine_session::inbound::drain_step;
use block_engine_session::inbound::DrainAction;
use block_engine_session::inbound::InboundEvent;
use block_engine_session::outbound::deliver_outbound;
use block_engine_session::payload::Bundle;
use block_engine_session::payload::MempoolPacket;
use block_engine_session::session::Session;
use tonic::transport::Endpoint;

fn packet(byte: u8) -> MempoolPacket {
    MempoolPacket { data: vec![byte] }
}

fn bundle(byte: u8) -> Bundle {
    Bundle { data: vec![byte] }
}

#[test]
fn publish_delivers_all_in_order() {
    let o = deliver_outbound(vec![packet(1), packet(2), packet(3)], None);
    assert_eq!(o.result, Ok(()));
    let sent: Vec<Vec<u8>> = o.sent.iter().map(|p| p.data.clone()).collect();
    assert_eq!(sent, vec![vec![1u8], vec![2u8], vec![3u8]]);
}

#[test]
fn publish_empty_sequence() {
    let o = deliver_outbound(Vec::new(), None);
    assert_eq!(o.result, Ok(()));
    assert!(o.sent.is_empty());
}

#[test]
fn publish_stops_at_failure_point() {
    let o = deliver_outbound(vec![packet(1), packet(2), packet(3)], Some(1));
    assert_eq!(o.result, Err(StreamError::Transport));
    let sent: Vec<Vec<u8>> = o.sent.iter().map(|p| p.data.clone()).collect();
    assert_eq!(sent, vec![vec![1u8]]);
}

#[test]
fn publish_failure_at_acknowledgment() {
    let o = deliver_outbound(vec![packet(1), packet(2)], Some(2));
    assert_eq!(o.result, Err(StreamError::Transport));
    assert_eq!(o.sent.len(), 2);
}

#[test]
fn publish_failure_before_first_packet() {
    let o = deliver_outbound(vec![packet(1), packet(2)], Some(0));
    assert_eq!(o.result, Err(StreamError::Transport));
    assert!(o.sent.is_empty());
}

#[test]
fn drain_step_delivers_bundle() {
    match drain_step(InboundEvent::Bundle(bundle(7))) {
        DrainAction::Deliver(b) => assert_eq!(b.data, vec![7u8]),
        DrainAction::Stop => panic!("a received bundle must be delivered"),
    }
}

#[test]
fn drain_step_stops_on_close() {
    assert!(matches!(drain_step(InboundEvent::Closed), DrainAction::Stop));
}

#[test]
fn drain_step_stops_silently_on_failure() {
    assert!(matches!(drain_step(InboundEvent::Failed), DrainAction::Stop));
}

#[test]
fn handler_invoked_once_per_bundle_in_order() {
    let delivered = drain_events(vec![
        InboundEvent::Bundle(bundle(1)),
        InboundEvent::Bundle(bundle(2)),
        InboundEvent::Closed,
    ]);
    let data: Vec<Vec<u8>> = delivered.iter().map(|b| b.data.clone()).collect();
    assert_eq!(data, vec![vec![1u8], vec![2u8]]);
}

#[test]
fn no_delivery_after_clean_close() {
    let delivered = drain_events(vec![
        InboundEvent::Bundle(bundle(1)),
        InboundEvent::Closed,
        InboundEvent::Bundle(bundle(2)),
    ]);
    let data: Vec<Vec<u8>> = delivered.iter().map(|b| b.data.clone()).collect();
    assert_eq!(data, vec![vec![1u8]]);
}

#[test]
fn no_delivery_after_mid_stream_error() {
    let delivered = drain_events(vec![
        InboundEvent::Bundle(bundle(1)),
        InboundEvent::Failed,
        InboundEvent::Bundle(bundle(2)),
        InboundEvent::Bundle(bundle(3)),
    ]);
    let data: Vec<Vec<u8>> = delivered.iter().map(|b| b.data.clone()).collect();
    assert_eq!(data, vec![vec![1u8]]);
}

#[test]
fn drain_of_unterminated_history_delivers_everything() {
    let delivered = drain_events(vec![
        InboundEvent::Bundle(bundle(1)),
        InboundEvent::Bundle(bundle(2)),
    ]);
    assert_eq!(delivered.len(), 2);
}

#[test]
fn drain_of_empty_history_delivers_nothing() {
    let delivered = drain_events(Vec::new());
    assert!(delivered.is_empty());
}

#[test]
fn session_scenario_publish_then_subscribe() {
    // Construct a session against grpc://relay.example:443 with credential
    // "abc123"; its calls carry `Bearer abc123`. Publishing two packets hands
    // the remote side both, in order. Subscribing with a handler delivers the
    // two received bundles one at a time, in arrival order; after the remote
    // side closes the stream, no error surfaces and nothing more is handed
    // over.
    let rt = tokio::runtime::Runtime::new().unwrap();
    let _guard = rt.enter();
    let channel = Endpoint::from_shared("grpc://relay.example:443".to_string())
        .unwrap()
        .connect_lazy();
    let session = Session::new(channel, Some(b"abc123".to_vec()));
    let meta = session.request_metadata().unwrap();
    assert_eq!(meta.authorization, Some(b"Bearer abc123".to_vec()));

    let o = deliver_outbound(vec![packet(1), packet(2)], None);
    assert_eq!(o.result, Ok(()));
    let sent: Vec<Vec<u8>> = o.sent.iter().map(|p| p.data.clone()).collect();
    assert_eq!(sent, vec![vec![1u8], vec![2u8]]);

    let mut seen: Vec<Vec<u8>> = Vec::new();
    let events = vec![
        InboundEvent::Bundle(bundle(1)),
        InboundEvent::Bundle(bundle(2)),
        InboundEvent::Closed,
    ];
    let mut stopped = false;
    for event in events {
        assert!(!stopped, "no event may be handled after the stream ended");
        match drain_step(event) {
            DrainAction::Deliver(b) => seen.push(b.data),
            DrainAction::Stop => stopped = true,
        }
    }
    assert!(stopped);
    assert_eq!(seen, vec![vec![1u8], vec![2u8]]);
}
