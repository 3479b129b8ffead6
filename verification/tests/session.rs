use entanglo::input_event::{InputEventKind, InputEventMessage};
use entanglo::payloads::{HelloPayload, ReleaseControlPayload};
use entanglo::session::{
    CloseReason, IncomingFrame, Outgoing, OutgoingRequest, SessionAction, SessionConfig, SessionEvent,
    SessionState,
};

fn hello(name: &str) -> HelloPayload {
    HelloPayload {
        device_name: name.to_string(),
        device_model: "Linux".to_string(),
        app_version: "0.1.0-test".to_string(),
        roles: vec!["controller".to_string(), "receiver".to_string()],
        platform: Some("Linux".to_string()),
    }
}

fn config(id: &str, name: &str) -> SessionConfig {
    SessionConfig {
        local_device_id: id.to_string(),
        local_session_id: format!("session-{id}"),
        local_hello: hello(name),
    }
}

fn move_event(x: i64, y: i64) -> InputEventMessage {
    InputEventMessage {
        kind: InputEventKind::MouseMove,
        x: Some(x),
        y: Some(y),
        delta_x: None,
        delta_y: None,
        button: None,
        key_code: None,
        media_key: None,
        modifier_flags: 0,
        pressed: None,
        click_state: None,
    }
}

/// The frame the peer receives for one of our sends.
fn as_frame(out: Outgoing, config: &SessionConfig) -> IncomingFrame {
    match out {
        Outgoing::Hello => IncomingFrame::Hello(Some(config.local_hello.clone())),
        Outgoing::PairRequest(p) => IncomingFrame::PairRequest(Some(p)),
        Outgoing::PairResponse(p) => IncomingFrame::PairResponse(Some(p)),
        Outgoing::Heartbeat { .. } => IncomingFrame::Heartbeat(true),
        Outgoing::InputEvent(e) => IncomingFrame::InputEvent(Some(e)),
        Outgoing::ReleaseControl(p) => IncomingFrame::ReleaseControl(Some(p)),
    }
}

struct Peer {
    config: SessionConfig,
    state: SessionState,
    trusted_in_store: Vec<String>,
    events: Vec<SessionEvent>,
}

impl Peer {
    fn new(id: &str, name: &str) -> Peer {
        let config = config(id, name);
        let state = SessionState::new(&config);
        Peer { config, state, trusted_in_store: vec![], events: vec![] }
    }
}

/// Performs actions of `from`, delivering sends to `to`; pairing requests
/// are answered with `accept`. Returns the frames delivered.
fn run(actions: Vec<SessionAction>, from: &mut Peer, to: &mut Peer, accept: bool) -> usize {
    let mut queue: Vec<(bool, SessionAction)> = actions.into_iter().map(|a| (true, a)).collect();
    let mut delivered = 0;
    while !queue.is_empty() {
        let (from_side, action) = queue.remove(0);
        let (me, other) = if from_side { (&mut *from, &mut *to) } else { (&mut *to, &mut *from) };
        match action {
            SessionAction::Send(out) => {
                delivered += 1;
                let frame = as_frame(out, &me.config);
                let sender = me.config.local_device_id.clone();
                let known = other.trusted_in_store.contains(&sender);
                let next = other.state.on_frame(sender, known, frame);
                queue.extend(next.into_iter().map(|a| (!from_side, a)));
            }
            SessionAction::Emit(SessionEvent::PairingRequested { .. }) => {
                let next = me.state.on_pairing_decision(accept);
                queue.extend(next.into_iter().map(|a| (from_side, a)));
            }
            SessionAction::Emit(event) => me.events.push(event),
            SessionAction::TrustPeer { device_id, .. } => me.trusted_in_store.push(device_id),
            SessionAction::Close => {}
        }
    }
    delivered
}

#[test]
fn two_untrusted_peers_pair_and_forward_input() {
    let mut client = Peer::new("client-device", "Client");
    let mut server = Peer::new("server-device", "Server");
    let start = client.state.start();
    run(start, &mut client, &mut server, true);
    let start = server.state.start();
    run(start, &mut server, &mut client, true);
    assert!(client.state.is_trusted());
    assert!(server.state.is_trusted());
    assert!(client.trusted_in_store.contains(&"server-device".to_string()));
    assert!(server.trusted_in_store.contains(&"client-device".to_string()));

    let sent = client.state.on_request(OutgoingRequest::Input(move_event(10, 20)));
    run(sent, &mut client, &mut server, true);
    let received: Vec<&InputEventMessage> = server
        .events
        .iter()
        .filter_map(|e| match e {
            SessionEvent::InputEvent(m) => Some(m),
            _ => None,
        })
        .collect();
    assert_eq!(received.len(), 1);
    assert_eq!(received[0].x, Some(10));
    assert_eq!(received[0].y, Some(20));
}

#[test]
fn first_frame_identifies_peer_and_requests_pairing() {
    let mut session = SessionState::new(&config("me", "Me"));
    let actions = session.on_frame("peer".to_string(), false, IncomingFrame::Hello(Some(hello("Peer"))));
    assert_eq!(actions.len(), 3);
    assert!(matches!(&actions[0], SessionAction::Emit(SessionEvent::PeerIdentified { device_id }) if device_id == "peer"));
    match &actions[1] {
        SessionAction::Send(Outgoing::PairRequest(p)) => {
            assert_eq!(p.requester_device_id, "me");
            assert_eq!(p.requester_device_name, "Me");
            assert_eq!(p.pin_hash, "");
        }
        _ => panic!("expected a pairRequest"),
    }
    assert!(matches!(&actions[2], SessionAction::Emit(SessionEvent::PeerHello { device_id, hello }) if device_id == "peer" && hello.device_name == "Peer"));
}

#[test]
fn untrusted_peer_input_is_dropped_and_not_sent() {
    let mut session = SessionState::new(&config("me", "Me"));
    session.on_frame("peer".to_string(), false, IncomingFrame::Heartbeat(true));
    let actions = session.on_frame("peer".to_string(), false, IncomingFrame::InputEvent(Some(move_event(1, 1))));
    assert!(actions.is_empty());
    assert!(session.on_request(OutgoingRequest::Input(move_event(1, 1))).is_empty());
}

#[test]
fn known_peer_is_trusted_at_once() {
    let mut session = SessionState::new(&config("me", "Me"));
    let actions = session.on_frame("peer".to_string(), true, IncomingFrame::Heartbeat(true));
    assert_eq!(actions.len(), 3);
    assert!(matches!(&actions[1], SessionAction::Emit(SessionEvent::Trusted { device_id }) if device_id == "peer"));
    assert!(matches!(&actions[2], SessionAction::Emit(SessionEvent::HeartbeatReceived)));
    let input = session.on_frame("peer".to_string(), true, IncomingFrame::InputEvent(Some(move_event(5, 6))));
    assert!(matches!(&input[0], SessionAction::Emit(SessionEvent::InputEvent(m)) if m.x == Some(5)));
}

#[test]
fn rejected_pairing_sends_reason() {
    let mut session = SessionState::new(&config("me", "Me"));
    session.on_frame("peer".to_string(), false, IncomingFrame::Heartbeat(true));
    let request = entanglo::payloads::PairRequestPayload {
        requester_device_id: "peer".to_string(),
        requester_device_name: "Peer".to_string(),
        pin_hash: String::new(),
    };
    session.on_frame("peer".to_string(), false, IncomingFrame::PairRequest(Some(request)));
    let actions = session.on_pairing_decision(false);
    match &actions[0] {
        SessionAction::Send(Outgoing::PairResponse(r)) => {
            assert!(!r.accepted);
            assert_eq!(r.trusted_device_id, None);
            assert_eq!(r.rejection_reason.as_deref(), Some("rejected by user"));
        }
        _ => panic!("expected a pairResponse"),
    }
    assert!(matches!(&actions[1], SessionAction::Emit(SessionEvent::PairingRejected { .. })));
    assert!(!session.is_trusted());
    assert!(session.on_pairing_decision(true).is_empty());
}

#[test]
fn manual_trust_uses_hello_name() {
    let mut session = SessionState::new(&config("me", "Me"));
    assert!(session.on_request(OutgoingRequest::TrustManually).is_empty());
    session.on_frame("peer".to_string(), false, IncomingFrame::Hello(Some(hello("Mac"))));
    let actions = session.on_request(OutgoingRequest::TrustManually);
    assert!(matches!(&actions[0], SessionAction::TrustPeer { device_id, friendly_name } if device_id == "peer" && friendly_name == "Mac"));
    assert!(session.is_trusted());
    let release = session.on_request(OutgoingRequest::ReleaseControl(ReleaseControlPayload { reason: "local_input".to_string() }));
    assert!(matches!(&release[0], SessionAction::Send(Outgoing::ReleaseControl(p)) if p.reason == "local_input"));
}

#[test]
fn heartbeats_count_up_and_silence_closes() {
    let mut session = SessionState::new(&config("me", "Me"));
    for expected in 0..3u64 {
        let actions = session.on_heartbeat_tick(true);
        assert!(matches!(&actions[0], SessionAction::Send(Outgoing::Heartbeat { sequence }) if *sequence == expected));
    }
    session.on_frame("peer".to_string(), false, IncomingFrame::Heartbeat(true));
    let actions = session.on_heartbeat_tick(false);
    assert!(matches!(&actions[0], SessionAction::Send(Outgoing::Heartbeat { sequence: 3 })));
    let actions = session.on_heartbeat_tick(true);
    assert!(matches!(&actions[0], SessionAction::Emit(SessionEvent::Closed { cause: CloseReason::HeartbeatTimeout })));
    assert!(matches!(&actions[1], SessionAction::Close));
    let closed = session.on_connection_closed();
    assert!(matches!(&closed[0], SessionAction::Emit(SessionEvent::Closed { cause: CloseReason::ConnectionClosed })));
}

#[test]
fn other_protocol_version_ends_the_session() {
    let cfg = config("dev-a", "A");
    let state = SessionState::new(&cfg);
    let actions = state.on_unsupported_version(2);
    assert_eq!(actions.len(), 2);
    assert!(matches!(
        actions[0],
        SessionAction::Emit(SessionEvent::Closed { cause: CloseReason::UnsupportedVersion(2) })
    ));
    assert!(matches!(actions[1], SessionAction::Close));
}
