//! The lifecycle of one peer connection: `hello` exchange, pairing,
//! heartbeat, and `inputEvent` / `releaseControl` forwarding.
//!
//! This is a state machine. The caller owns the socket, the timers and the
//! trust store: it feeds the machine each received frame, each heartbeat
//! tick, each request from the connection manager and the user's pairing
//! decisions, and performs the actions the machine returns, in order:
//! frames to send, events to report, devices to trust, and when to close.

use vstd::prelude::*;
use crate::input_event::InputEventMessage;
use crate::message_type::MessageType;
use crate::payloads::{
    HelloPayload, HelloView, PairRequestPayload, PairRequestView, PairResponsePayload,
    PairResponseView, ReleaseControlPayload,
};

verus! {

/// What this device says about itself on every connection.
pub struct SessionConfig {
    pub local_device_id: String,
    pub local_session_id: String,
    pub local_hello: HelloPayload,
}

/// Why a session ended.
#[derive(Debug, Clone, Copy, PartialEq, Eq, Structural)]
pub enum CloseReason {
    /// The peer closed the connection.
    ConnectionClosed,
    /// Nothing arrived from an identified peer for longer than the
    /// heartbeat timeout.
    HeartbeatTimeout,
    /// The peer sent an envelope of this other protocol version.
    UnsupportedVersion(u32),
}

/// A received frame, its payload decoded according to its `messageType`
/// (`None` where the payload did not decode).
pub enum IncomingFrame {
    Hello(Option<HelloPayload>),
    PairRequest(Option<PairRequestPayload>),
    PairResponse(Option<PairResponsePayload>),
    /// Whether the heartbeat payload decoded.
    Heartbeat(bool),
    InputEvent(Option<InputEventMessage>),
    ReleaseControl(Option<ReleaseControlPayload>),
    /// A type this version handles in a later phase, or not at all.
    Other(MessageType),
}

/// A request from the connection manager to this session.
pub enum OutgoingRequest {
    /// Forward this captured input to the peer.
    Input(InputEventMessage),
    /// Tell the peer to stop sending input.
    ReleaseControl(ReleaseControlPayload),
    /// Trust the peer now, without a `pairRequest` / `pairResponse` round
    /// trip (for peers that never send a `pairRequest`).
    TrustManually,
}

/// What the session reports to its caller.
pub enum SessionEvent {
    /// The peer's device id is known (from its first frame), before any
    /// trust decision.
    PeerIdentified { device_id: String },
    /// The peer's `hello` arrived.
    PeerHello { device_id: String, hello: HelloPayload },
    /// The peer asks to be trusted; answer with `on_pairing_decision`.
    PairingRequested { device_id: String, request: PairRequestPayload },
    /// The peer is trusted now.
    Trusted { device_id: String },
    PairingRejected { device_id: String },
    /// A heartbeat arrived; the caller measures the round trip.
    HeartbeatReceived,
    /// Input from the peer. Only ever reported once the peer is trusted.
    InputEvent(InputEventMessage),
    ReleaseControl { reason: String },
    Closed { cause: CloseReason },
}

/// A payload to send, wrapped by the caller in an envelope of the matching
/// `messageType`.
pub enum Outgoing {
    /// This device's own `hello`.
    Hello,
    PairRequest(PairRequestPayload),
    PairResponse(PairResponsePayload),
    /// A heartbeat with this sequence number; the caller adds the clock
    /// readings.
    Heartbeat { sequence: u64 },
    InputEvent(InputEventMessage),
    ReleaseControl(ReleaseControlPayload),
}

/// One step for the caller to perform.
pub enum SessionAction {
    Send(Outgoing),
    Emit(SessionEvent),
    /// Record the device as trusted in the trust store, and persist it.
    TrustPeer { device_id: String, friendly_name: String },
    /// Stop driving this connection.
    Close,
}

/// The abstract contents of a received frame.
pub enum FrameView {
    Hello(Option<HelloView>),
    PairRequest(Option<PairRequestView>),
    PairResponse(Option<PairResponseView>),
    Heartbeat(bool),
    InputEvent(Option<InputEventMessage>),
    ReleaseControl(Option<Seq<char>>),
    Other(MessageType),
}

/// The abstract contents of a reported event.
pub enum EventView {
    PeerIdentified(Seq<char>),
    PeerHello(Seq<char>, HelloView),
    PairingRequested(Seq<char>, PairRequestView),
    Trusted(Seq<char>),
    PairingRejected(Seq<char>),
    HeartbeatReceived,
    InputEvent(InputEventMessage),
    ReleaseControl(Seq<char>),
    Closed(CloseReason),
}

/// The abstract contents of a payload to send.
pub enum OutgoingView {
    Hello,
    PairRequest(PairRequestView),
    PairResponse(PairResponseView),
    Heartbeat(u64),
    InputEvent(InputEventMessage),
    ReleaseControl(Seq<char>),
}

/// The abstract contents of an action.
pub enum ActionView {
    Send(OutgoingView),
    Emit(EventView),
    TrustPeer(Seq<char>, Seq<char>),
    Close,
}

/// The abstract state of a session.
pub struct SessionView {
    pub local_device_id: Seq<char>,
    pub local_device_name: Seq<char>,
    /// The peer's device id, once its first frame arrived.
    pub peer: Option<Seq<char>>,
    /// The device name from the peer's `hello`, once it arrived.
    pub peer_name: Option<Seq<char>>,
    pub trusted: bool,
    /// The sequence number of the next heartbeat sent.
    pub heartbeat_seq: u64,
    /// The requester name of a `pairRequest` awaiting the user's decision.
    pub pending_pairing: Option<Seq<char>>,
}

impl View for IncomingFrame {
    type V = FrameView;

    open spec fn view(&self) -> FrameView {
        match self {
            IncomingFrame::Hello(h) => FrameView::Hello(
                match h {
                    Some(p) => Some(p@),
                    None => None,
                },
            ),
            IncomingFrame::PairRequest(r) => FrameView::PairRequest(
                match r {
                    Some(p) => Some(p@),
                    None => None,
                },
            ),
            IncomingFrame::PairResponse(r) => FrameView::PairResponse(
                match r {
                    Some(p) => Some(p@),
                    None => None,
                },
            ),
            IncomingFrame::Heartbeat(ok) => FrameView::Heartbeat(*ok),
            IncomingFrame::InputEvent(e) => FrameView::InputEvent(*e),
            IncomingFrame::ReleaseControl(r) => FrameView::ReleaseControl(
                match r {
                    Some(p) => Some(p@),
                    None => None,
                },
            ),
            IncomingFrame::Other(t) => FrameView::Other(*t),
        }
    }
}

impl View for SessionEvent {
    type V = EventView;

    open spec fn view(&self) -> EventView {
        match self {
            SessionEvent::PeerIdentified { device_id } => EventView::PeerIdentified(device_id@),
            SessionEvent::PeerHello { device_id, hello } => EventView::PeerHello(
                device_id@,
                hello@,
            ),
            SessionEvent::PairingRequested { device_id, request } => EventView::PairingRequested(
                device_id@,
                request@,
            ),
            SessionEvent::Trusted { device_id } => EventView::Trusted(device_id@),
            SessionEvent::PairingRejected { device_id } => EventView::PairingRejected(device_id@),
            SessionEvent::HeartbeatReceived => EventView::HeartbeatReceived,
            SessionEvent::InputEvent(e) => EventView::InputEvent(*e),
            SessionEvent::ReleaseControl { reason } => EventView::ReleaseControl(reason@),
            SessionEvent::Closed { cause } => EventView::Closed(*cause),
        }
    }
}

impl View for Outgoing {
    type V = OutgoingView;

    open spec fn view(&self) -> OutgoingView {
        match self {
            Outgoing::Hello => OutgoingView::Hello,
            Outgoing::PairRequest(r) => OutgoingView::PairRequest(r@),
            Outgoing::PairResponse(r) => OutgoingView::PairResponse(r@),
            Outgoing::Heartbeat { sequence } => OutgoingView::Heartbeat(*sequence),
            Outgoing::InputEvent(e) => OutgoingView::InputEvent(*e),
            Outgoing::ReleaseControl(r) => OutgoingView::ReleaseControl(r@),
        }
    }
}

impl View for SessionAction {
    type V = ActionView;

    open spec fn view(&self) -> ActionView {
        match self {
            SessionAction::Send(o) => ActionView::Send(o@),
            SessionAction::Emit(e) => ActionView::Emit(e@),
            SessionAction::TrustPeer { device_id, friendly_name } => ActionView::TrustPeer(
                device_id@,
                friendly_name@,
            ),
            SessionAction::Close => ActionView::Close,
        }
    }
}

/// The abstract contents of a list of actions.
pub open spec fn actions_view(actions: Seq<SessionAction>) -> Seq<ActionView> {
    actions.map_values(|a: SessionAction| a@)
}

/// The name a newly trusted peer is stored under: its `hello` name if one
/// arrived, else its device id.
pub open spec fn friendly_name(st: SessionView, peer: Seq<char>) -> Seq<char> {
    match st.peer_name {
        Some(n) => n,
        None => peer,
    }
}

/// The reason sent with a rejected pairing.
pub open spec fn rejected_by_user() -> Seq<char> {
    "rejected by user"@
}

/// The first frame identifies the peer: its sender becomes the peer's
/// device id, reported at once. A peer the trust store already trusts is
/// trusted for the session; any other is sent this device's `pairRequest`
/// (with an empty `pinHash`). Later frames change nothing here.
pub open spec fn identify_peer(st: SessionView, sender: Seq<char>, sender_trusted: bool) -> (
    SessionView,
    Seq<ActionView>,
) {
    if st.peer is Some {
        (st, Seq::empty())
    } else {
        let next = SessionView { peer: Some(sender), trusted: sender_trusted, ..st };
        let identified = seq![ActionView::Emit(EventView::PeerIdentified(sender))];
        if sender_trusted {
            (next, identified.push(ActionView::Emit(EventView::Trusted(sender))))
        } else {
            (
                next,
                identified.push(
                    ActionView::Send(
                        OutgoingView::PairRequest(
                            PairRequestView {
                                requester_device_id: st.local_device_id,
                                requester_device_name: st.local_device_name,
                                pin_hash: Seq::empty(),
                            },
                        ),
                    ),
                ),
            )
        }
    }
}

/// What a frame of the identified peer `peer` does.
///
/// - `hello`: remember the peer's name, report the hello.
/// - `pairRequest`: ask the user (the answer comes through
///   `on_pairing_decision`).
/// - `pairResponse`: accepted trusts the peer, under its `hello` name;
///   rejected is reported.
/// - `heartbeat`: reported.
/// - `inputEvent`: reported only if the peer is trusted.
/// - `releaseControl`: reported with its reason.
/// - undecodable payloads and other types: dropped.
pub open spec fn dispatch_frame(st: SessionView, peer: Seq<char>, frame: FrameView) -> (
    SessionView,
    Seq<ActionView>,
) {
    match frame {
        FrameView::Hello(Some(h)) => (
            SessionView { peer_name: Some(h.device_name), ..st },
            seq![ActionView::Emit(EventView::PeerHello(peer, h))],
        ),
        FrameView::PairRequest(Some(r)) => (
            SessionView { pending_pairing: Some(r.requester_device_name), ..st },
            seq![ActionView::Emit(EventView::PairingRequested(peer, r))],
        ),
        FrameView::PairResponse(Some(r)) => if r.accepted {
            (
                SessionView { trusted: true, ..st },
                seq![
                    ActionView::TrustPeer(peer, friendly_name(st, peer)),
                    ActionView::Emit(EventView::Trusted(peer)),
                ],
            )
        } else {
            (st, seq![ActionView::Emit(EventView::PairingRejected(peer))])
        },
        FrameView::Heartbeat(true) => (st, seq![ActionView::Emit(EventView::HeartbeatReceived)]),
        FrameView::InputEvent(Some(e)) => if st.trusted {
            (st, seq![ActionView::Emit(EventView::InputEvent(e))])
        } else {
            (st, Seq::empty())
        },
        FrameView::ReleaseControl(Some(reason)) => (
            st,
            seq![ActionView::Emit(EventView::ReleaseControl(reason))],
        ),
        _ => (st, Seq::empty()),
    }
}

/// A frame from `sender`: identify the peer if this is its first frame,
/// then dispatch the frame.
pub open spec fn spec_on_frame(
    st: SessionView,
    sender: Seq<char>,
    sender_trusted: bool,
    frame: FrameView,
) -> (SessionView, Seq<ActionView>) {
    let (st1, a1) = identify_peer(st, sender, sender_trusted);
    let (st2, a2) = dispatch_frame(st1, st1.peer->0, frame);
    (st2, a1 + a2)
}

/// The user's answer to a pending `pairRequest`: accepting trusts the peer
/// under the requester's name; either way the peer gets a `pairResponse`
/// and the outcome is reported. With no request pending, nothing happens.
pub open spec fn spec_on_pairing_decision(st: SessionView, accepted: bool) -> (
    SessionView,
    Seq<ActionView>,
) {
    match (st.pending_pairing, st.peer) {
        (Some(name), Some(peer)) => {
            let response = PairResponseView {
                accepted,
                trusted_device_id: if accepted {
                    Some(peer)
                } else {
                    None
                },
                rejection_reason: if accepted {
                    None
                } else {
                    Some(rejected_by_user())
                },
            };
            if accepted {
                (
                    SessionView { trusted: true, pending_pairing: None, ..st },
                    seq![
                        ActionView::TrustPeer(peer, name),
                        ActionView::Send(OutgoingView::PairResponse(response)),
                        ActionView::Emit(EventView::Trusted(peer)),
                    ],
                )
            } else {
                (
                    SessionView { pending_pairing: None, ..st },
                    seq![
                        ActionView::Send(OutgoingView::PairResponse(response)),
                        ActionView::Emit(EventView::PairingRejected(peer)),
                    ],
                )
            }
        },
        _ => (SessionView { pending_pairing: None, ..st }, Seq::empty()),
    }
}

/// The abstract contents of a request.
pub open spec fn request_view(request: OutgoingRequest) -> Option<OutgoingView> {
    match request {
        OutgoingRequest::Input(e) => Some(OutgoingView::InputEvent(e)),
        OutgoingRequest::ReleaseControl(r) => Some(OutgoingView::ReleaseControl(r@)),
        OutgoingRequest::TrustManually => None,
    }
}

/// A request from the connection manager: input goes out only to a trusted
/// peer; `releaseControl` always goes out; manual trust trusts an
/// identified peer under its `hello` name (and does nothing before the
/// peer is identified).
pub open spec fn spec_on_request(st: SessionView, request: OutgoingRequest) -> (
    SessionView,
    Seq<ActionView>,
) {
    match request {
        OutgoingRequest::Input(e) => if st.trusted {
            (st, seq![ActionView::Send(OutgoingView::InputEvent(e))])
        } else {
            (st, Seq::empty())
        },
        OutgoingRequest::ReleaseControl(r) => (
            st,
            seq![ActionView::Send(OutgoingView::ReleaseControl(r@))],
        ),
        OutgoingRequest::TrustManually => match st.peer {
            Some(peer) => (
                SessionView { trusted: true, ..st },
                seq![
                    ActionView::TrustPeer(peer, friendly_name(st, peer)),
                    ActionView::Emit(EventView::Trusted(peer)),
                ],
            ),
            None => (st, Seq::empty()),
        },
    }
}

/// A heartbeat tick: an identified peer that has been silent too long ends
/// the session; otherwise the next heartbeat goes out.
pub open spec fn spec_on_heartbeat_tick(st: SessionView, silent_too_long: bool) -> (
    SessionView,
    Seq<ActionView>,
) {
    if st.peer is Some && silent_too_long {
        (st, seq![ActionView::Emit(EventView::Closed(CloseReason::HeartbeatTimeout)), ActionView::Close])
    } else {
        (
            SessionView { heartbeat_seq: (st.heartbeat_seq + 1) as u64, ..st },
            seq![ActionView::Send(OutgoingView::Heartbeat(st.heartbeat_seq))],
        )
    }
}

/// The state machine of one connection.
pub struct SessionState {
    local_device_id: String,
    local_device_name: String,
    peer_device_id: Option<String>,
    peer_name: Option<String>,
    trusted: bool,
    heartbeat_seq: u64,
    pending_pairing: Option<String>,
}

impl View for SessionState {
    type V = SessionView;

    closed spec fn view(&self) -> SessionView {
        SessionView {
            local_device_id: self.local_device_id@,
            local_device_name: self.local_device_name@,
            peer: match self.peer_device_id {
                Some(p) => Some(p@),
                None => None,
            },
            peer_name: match self.peer_name {
                Some(n) => Some(n@),
                None => None,
            },
            trusted: self.trusted,
            heartbeat_seq: self.heartbeat_seq,
            pending_pairing: match self.pending_pairing {
                Some(n) => Some(n@),
                None => None,
            },
        }
    }
}

/// Appends one action.
fn push_action(actions: &mut Vec<SessionAction>, action: SessionAction)
    ensures
        actions_view(final(actions)@) == actions_view(old(actions)@).push(action@),
{
    actions.push(action);
    assert(actions_view(actions@) =~= actions_view(old(actions)@).push(action@));
}

impl SessionState {
    /// A fresh connection: peer unknown and untrusted, first heartbeat
    /// numbered 0.
    pub fn new(config: &SessionConfig) -> (state: SessionState)
        ensures
            state@ == (SessionView {
                local_device_id: config.local_device_id@,
                local_device_name: config.local_hello.device_name@,
                peer: None,
                peer_name: None,
                trusted: false,
                heartbeat_seq: 0,
                pending_pairing: None,
            }),
    {
        SessionState {
            local_device_id: config.local_device_id.clone(),
            local_device_name: config.local_hello.device_name.clone(),
            peer_device_id: None,
            peer_name: None,
            trusted: false,
            heartbeat_seq: 0,
            pending_pairing: None,
        }
    }

    /// The connection opened: send this device's `hello` first.
    pub fn start(&self) -> (actions: Vec<SessionAction>)
        ensures
            actions_view(actions@) == seq![ActionView::Send(OutgoingView::Hello)],
    {
        let mut actions: Vec<SessionAction> = Vec::new();
        push_action(&mut actions, SessionAction::Send(Outgoing::Hello));
        actions
    }

    /// The peer closed the connection.
    pub fn on_connection_closed(&self) -> (actions: Vec<SessionAction>)
        ensures
            actions_view(actions@) == seq![
                ActionView::Emit(EventView::Closed(CloseReason::ConnectionClosed)),
                ActionView::Close,
            ],
    {
        let mut actions: Vec<SessionAction> = Vec::new();
        push_action(
            &mut actions,
            SessionAction::Emit(SessionEvent::Closed { cause: CloseReason::ConnectionClosed }),
        );
        push_action(&mut actions, SessionAction::Close);
        actions
    }

    /// A frame arrived whose envelope speaks protocol `version`, not
    /// `PROTOCOL_VERSION`: the connection ends. (Any other frame that does
    /// not decode is skipped by the caller and never reaches the machine.)
    pub fn on_unsupported_version(&self, version: u32) -> (actions: Vec<SessionAction>)
        ensures
            actions_view(actions@) == seq![
                ActionView::Emit(EventView::Closed(CloseReason::UnsupportedVersion(version))),
                ActionView::Close,
            ],
    {
        let mut actions: Vec<SessionAction> = Vec::new();
        push_action(
            &mut actions,
            SessionAction::Emit(SessionEvent::Closed { cause: CloseReason::UnsupportedVersion(version) }),
        );
        push_action(&mut actions, SessionAction::Close);
        actions
    }

    /// A frame from `sender` arrived; `sender_trusted` is whether the
    /// trust store trusts `sender` (only consulted for the first frame).
    pub fn on_frame(&mut self, sender: String, sender_trusted: bool, frame: IncomingFrame) -> (actions:
        Vec<SessionAction>)
        ensures
            (final(self)@, actions_view(actions@)) == spec_on_frame(
                old(self)@,
                sender@,
                sender_trusted,
                frame@,
            ),
    {
        let mut actions: Vec<SessionAction> = Vec::new();
        if self.peer_device_id.is_none() {
            push_action(
                &mut actions,
                SessionAction::Emit(SessionEvent::PeerIdentified { device_id: sender.clone() }),
            );
            self.trusted = sender_trusted;
            if sender_trusted {
                push_action(
                    &mut actions,
                    SessionAction::Emit(SessionEvent::Trusted { device_id: sender.clone() }),
                );
            } else {
                let request = PairRequestPayload {
                    requester_device_id: self.local_device_id.clone(),
                    requester_device_name: self.local_device_name.clone(),
                    pin_hash: String::new(),
                };
                push_action(&mut actions, SessionAction::Send(Outgoing::PairRequest(request)));
            }
            self.peer_device_id = Some(sender.clone());
        }
        let ghost st1 = self@;
        let ghost a1 = actions_view(actions@);
        assert((st1, a1) == identify_peer(old(self)@, sender@, sender_trusted));

        let peer = match &self.peer_device_id {
            Some(p) => p.clone(),
            None => sender,
        };
        match frame {
            IncomingFrame::Hello(Some(hello)) => {
                self.peer_name = Some(hello.device_name.clone());
                push_action(
                    &mut actions,
                    SessionAction::Emit(SessionEvent::PeerHello { device_id: peer, hello }),
                );
            },
            IncomingFrame::PairRequest(Some(request)) => {
                self.pending_pairing = Some(request.requester_device_name.clone());
                push_action(
                    &mut actions,
                    SessionAction::Emit(SessionEvent::PairingRequested { device_id: peer, request }),
                );
            },
            IncomingFrame::PairResponse(Some(response)) => {
                if response.accepted {
                    let name = match &self.peer_name {
                        Some(n) => n.clone(),
                        None => peer.clone(),
                    };
                    self.trusted = true;
                    push_action(
                        &mut actions,
                        SessionAction::TrustPeer { device_id: peer.clone(), friendly_name: name },
                    );
                    push_action(
                        &mut actions,
                        SessionAction::Emit(SessionEvent::Trusted { device_id: peer }),
                    );
                } else {
                    push_action(
                        &mut actions,
                        SessionAction::Emit(SessionEvent::PairingRejected { device_id: peer }),
                    );
                }
            },
            IncomingFrame::Heartbeat(true) => {
                push_action(&mut actions, SessionAction::Emit(SessionEvent::HeartbeatReceived));
            },
            IncomingFrame::InputEvent(Some(event)) => {
                if self.trusted {
                    push_action(&mut actions, SessionAction::Emit(SessionEvent::InputEvent(event)));
                }
            },
            IncomingFrame::ReleaseControl(Some(release)) => {
                push_action(
                    &mut actions,
                    SessionAction::Emit(SessionEvent::ReleaseControl { reason: release.reason }),
                );
            },
            _ => {},
        }
        assert(actions_view(actions@) =~= a1 + dispatch_frame(st1, st1.peer->0, frame@).1);
        actions
    }

    /// The user answered the pending `pairRequest`.
    pub fn on_pairing_decision(&mut self, accepted: bool) -> (actions: Vec<SessionAction>)
        ensures
            (final(self)@, actions_view(actions@)) == spec_on_pairing_decision(old(self)@, accepted),
    {
        let mut actions: Vec<SessionAction> = Vec::new();
        let pending = self.pending_pairing.take();
        match (pending, &self.peer_device_id) {
            (Some(name), Some(peer)) => {
                let peer = peer.clone();
                if accepted {
                    self.trusted = true;
                    push_action(
                        &mut actions,
                        SessionAction::TrustPeer { device_id: peer.clone(), friendly_name: name },
                    );
                }
                let response = PairResponsePayload {
                    accepted,
                    trusted_device_id: if accepted {
                        Some(peer.clone())
                    } else {
                        None
                    },
                    rejection_reason: if accepted {
                        None
                    } else {
                        Some("rejected by user".to_owned())
                    },
                };
                proof {
                    reveal_strlit("rejected by user");
                }
                push_action(&mut actions, SessionAction::Send(Outgoing::PairResponse(response)));
                if accepted {
                    push_action(
                        &mut actions,
                        SessionAction::Emit(SessionEvent::Trusted { device_id: peer }),
                    );
                } else {
                    push_action(
                        &mut actions,
                        SessionAction::Emit(SessionEvent::PairingRejected { device_id: peer }),
                    );
                }
            },
            _ => {},
        }
        actions
    }

    /// A request from the connection manager.
    pub fn on_request(&mut self, request: OutgoingRequest) -> (actions: Vec<SessionAction>)
        ensures
            (final(self)@, actions_view(actions@)) == spec_on_request(old(self)@, request),
    {
        let mut actions: Vec<SessionAction> = Vec::new();
        match request {
            OutgoingRequest::Input(event) => {
                if self.trusted {
                    push_action(&mut actions, SessionAction::Send(Outgoing::InputEvent(event)));
                }
            },
            OutgoingRequest::ReleaseControl(release) => {
                push_action(&mut actions, SessionAction::Send(Outgoing::ReleaseControl(release)));
            },
            OutgoingRequest::TrustManually => {
                if let Some(peer) = &self.peer_device_id {
                    let peer = peer.clone();
                    let name = match &self.peer_name {
                        Some(n) => n.clone(),
                        None => peer.clone(),
                    };
                    self.trusted = true;
                    push_action(
                        &mut actions,
                        SessionAction::TrustPeer { device_id: peer.clone(), friendly_name: name },
                    );
                    push_action(
                        &mut actions,
                        SessionAction::Emit(SessionEvent::Trusted { device_id: peer }),
                    );
                }
            },
        }
        actions
    }

    /// The heartbeat timer fired; `silent_too_long` is whether nothing has
    /// arrived for longer than the heartbeat timeout.
    pub fn on_heartbeat_tick(&mut self, silent_too_long: bool) -> (actions: Vec<SessionAction>)
        requires
            old(self)@.heartbeat_seq < u64::MAX,
        ensures
            (final(self)@, actions_view(actions@)) == spec_on_heartbeat_tick(
                old(self)@,
                silent_too_long,
            ),
    {
        let mut actions: Vec<SessionAction> = Vec::new();
        if self.peer_device_id.is_some() && silent_too_long {
            push_action(
                &mut actions,
                SessionAction::Emit(SessionEvent::Closed { cause: CloseReason::HeartbeatTimeout }),
            );
            push_action(&mut actions, SessionAction::Close);
        } else {
            push_action(
                &mut actions,
                SessionAction::Send(Outgoing::Heartbeat { sequence: self.heartbeat_seq }),
            );
            self.heartbeat_seq = self.heartbeat_seq + 1;
        }
        actions
    }

    /// Whether the peer is trusted for this session.
    pub fn is_trusted(&self) -> (trusted: bool)
        ensures
            trusted == self@.trusted,
    {
        self.trusted
    }
}

/// Safety gate: a frame's input is reported only by a session whose peer
/// is trusted, and input is sent out only to a trusted peer.
pub proof fn lemma_input_needs_trust(
    st: SessionView,
    sender: Seq<char>,
    sender_trusted: bool,
    frame: FrameView,
    request: OutgoingRequest,
)
    ensures
        (exists|i: int|
            0 <= i < spec_on_frame(st, sender, sender_trusted, frame).1.len()
                && #[trigger] spec_on_frame(st, sender, sender_trusted, frame).1[i] is Emit
                && spec_on_frame(st, sender, sender_trusted, frame).1[i]->Emit_0 is InputEvent)
            ==> spec_on_frame(st, sender, sender_trusted, frame).0.trusted,
        (exists|i: int|
            0 <= i < spec_on_request(st, request).1.len() && #[trigger] spec_on_request(
                st,
                request,
            ).1[i] is Send && spec_on_request(st, request).1[i]->Send_0 is InputEvent) ==> st.trusted,
{
    let (st1, a1) = identify_peer(st, sender, sender_trusted);
    let (st2, a2) = dispatch_frame(st1, st1.peer->0, frame);
    assert forall|i: int| 0 <= i < a1.len() implies !(a1[i] is Emit && a1[i]->Emit_0 is InputEvent) by {}
    assert forall|i: int| 0 <= i < (a1 + a2).len() && (a1 + a2)[i] is Emit && (a1 + a2)[i]->Emit_0 is InputEvent implies st2.trusted by {
        if i >= a1.len() {
            assert((a1 + a2)[i] == a2[i - a1.len()]);
        }
    }
}

/// Trust is never withdrawn within a session: once the peer is trusted,
/// every further step leaves it trusted.
pub proof fn lemma_trust_is_sticky(
    st: SessionView,
    sender: Seq<char>,
    sender_trusted: bool,
    frame: FrameView,
    accepted: bool,
    request: OutgoingRequest,
    silent_too_long: bool,
)
    requires
        st.trusted,
        st.peer is Some,
    ensures
        spec_on_frame(st, sender, sender_trusted, frame).0.trusted,
        spec_on_pairing_decision(st, accepted).0.trusted,
        spec_on_request(st, request).0.trusted,
        spec_on_heartbeat_tick(st, silent_too_long).0.trusted,
{
}

/// The peer's identity is fixed by its first frame: a later frame from
/// any sender, and any other step, leaves it unchanged.
pub proof fn lemma_peer_identity_fixed(
    st: SessionView,
    sender: Seq<char>,
    sender_trusted: bool,
    frame: FrameView,
    accepted: bool,
    request: OutgoingRequest,
    silent_too_long: bool,
)
    requires
        st.peer is Some,
    ensures
        spec_on_frame(st, sender, sender_trusted, frame).0.peer == st.peer,
        spec_on_pairing_decision(st, accepted).0.peer == st.peer,
        spec_on_request(st, request).0.peer == st.peer,
        spec_on_heartbeat_tick(st, silent_too_long).0.peer == st.peer,
{
}

/// Heartbeats are numbered 0, 1, 2, ...: each tick that sends one sends
/// the current number and advances it by one.
pub proof fn lemma_heartbeat_numbering(st: SessionView, silent_too_long: bool)
    requires
        st.heartbeat_seq < u64::MAX,
    ensures
        !(st.peer is Some && silent_too_long) ==> {
            &&& spec_on_heartbeat_tick(st, silent_too_long).1 == seq![
                ActionView::Send(OutgoingView::Heartbeat(st.heartbeat_seq)),
            ]
            &&& spec_on_heartbeat_tick(st, silent_too_long).0.heartbeat_seq == st.heartbeat_seq + 1
        },
        (st.peer is Some && silent_too_long) ==> spec_on_heartbeat_tick(st, silent_too_long).1.last()
            == ActionView::Close,
{
}

/// One input to the state machine, as the caller feeds it.
pub enum SessionStep {
    /// The connection opened (`start`).
    Started,
    /// A frame (`on_frame`).
    Frame { sender: Seq<char>, sender_trusted: bool, frame: FrameView },
    /// The user's pairing decision (`on_pairing_decision`).
    PairingDecision(bool),
    /// A request of the connection manager (`on_request`).
    Request(OutgoingRequest),
    /// A heartbeat tick (`on_heartbeat_tick`).
    HeartbeatTick(bool),
    /// The peer closed the connection (`on_connection_closed`).
    ConnectionClosed,
    /// A frame of another protocol version (`on_unsupported_version`).
    UnsupportedVersion(u32),
}

/// What one step does, as the step functions' contracts state it.
pub open spec fn spec_step(st: SessionView, step: SessionStep) -> (SessionView, Seq<ActionView>) {
    match step {
        SessionStep::Started => (st, seq![ActionView::Send(OutgoingView::Hello)]),
        SessionStep::Frame { sender, sender_trusted, frame } => spec_on_frame(
            st,
            sender,
            sender_trusted,
            frame,
        ),
        SessionStep::PairingDecision(accepted) => spec_on_pairing_decision(st, accepted),
        SessionStep::Request(request) => spec_on_request(st, request),
        SessionStep::HeartbeatTick(silent) => spec_on_heartbeat_tick(st, silent),
        SessionStep::ConnectionClosed => (
            st,
            seq![ActionView::Emit(EventView::Closed(CloseReason::ConnectionClosed)), ActionView::Close],
        ),
        SessionStep::UnsupportedVersion(v) => (
            st,
            seq![
                ActionView::Emit(EventView::Closed(CloseReason::UnsupportedVersion(v))),
                ActionView::Close,
            ],
        ),
    }
}

/// A whole run: the state after the steps, and every action they return,
/// in order.
pub open spec fn spec_run(st: SessionView, steps: Seq<SessionStep>) -> (SessionView, Seq<ActionView>)
    decreases steps.len(),
{
    if steps.len() == 0 {
        (st, Seq::empty())
    } else {
        let (s1, a1) = spec_run(st, steps.drop_last());
        let (s2, a2) = spec_step(s1, steps.last());
        (s2, a1 + a2)
    }
}

/// Whether an action reports the peer trusted.
pub open spec fn is_trusted_report(a: ActionView) -> bool {
    a is Emit && a->Emit_0 is Trusted
}

/// Whether an action reports input from the peer or sends input to it.
pub open spec fn is_input_action(a: ActionView) -> bool {
    (a is Emit && a->Emit_0 is InputEvent) || (a is Send && a->Send_0 is InputEvent)
}

/// Every input reported or sent comes after a report that the peer is
/// trusted.
pub open spec fn inputs_follow_trust(actions: Seq<ActionView>) -> bool {
    forall|i: int|
        0 <= i < actions.len() && #[trigger] is_input_action(actions[i]) ==> exists|j: int|
            0 <= j < i && #[trigger] is_trusted_report(actions[j])
}

proof fn lemma_step_trust(st: SessionView, step: SessionStep)
    ensures
        ({
            let (s2, a2) = spec_step(st, step);
            &&& s2.trusted && !st.trusted ==> exists|j: int|
                0 <= j < a2.len() && #[trigger] is_trusted_report(a2[j])
            &&& forall|k: int|
                0 <= k < a2.len() && #[trigger] is_input_action(a2[k]) ==> st.trusted || exists|j: int|
                    0 <= j < k && #[trigger] is_trusted_report(a2[j])
        }),
{
    let (s2, a2) = spec_step(st, step);
    match step {
        SessionStep::Frame { sender, sender_trusted, frame } => {
            let (st1, a1) = identify_peer(st, sender, sender_trusted);
            let (st2, b) = dispatch_frame(st1, st1.peer->0, frame);
            assert(a2 == a1 + b);
            if st1.trusted && !st.trusted {
                assert(is_trusted_report(a1[1]));
                assert(a2[1] == a1[1]);
            }
            if s2.trusted && !st.trusted && !st1.trusted {
                assert(is_trusted_report(b[1]));
                assert(a2[a1.len() as int + 1] == b[1]);
            }
            assert forall|k: int| 0 <= k < a2.len() && #[trigger] is_input_action(a2[k]) implies st.trusted
                || exists|j: int| 0 <= j < k && #[trigger] is_trusted_report(a2[j]) by {
                assert(k >= a1.len());
                assert(a2[k] == b[k - a1.len()]);
                if !st.trusted {
                    assert(st1.trusted);
                    assert(is_trusted_report(a2[1]));
                }
            }
        },
        SessionStep::PairingDecision(accepted) => {
            if s2.trusted && !st.trusted {
                assert(is_trusted_report(a2[2]));
            }
        },
        SessionStep::Request(request) => {
            if s2.trusted && !st.trusted {
                assert(is_trusted_report(a2[1]));
            }
        },
        _ => {},
    }
}

/// Over any run that starts with the peer untrusted (as every session
/// does), every input reported from the peer or sent to it comes after a
/// report that the peer is trusted; and once the peer is trusted, the run
/// has reported it.
pub proof fn lemma_run_inputs_follow_trust(init: SessionView, steps: Seq<SessionStep>)
    requires
        !init.trusted,
    ensures
        inputs_follow_trust(spec_run(init, steps).1),
        spec_run(init, steps).0.trusted ==> exists|j: int|
            0 <= j < spec_run(init, steps).1.len() && #[trigger] is_trusted_report(
                spec_run(init, steps).1[j],
            ),
    decreases steps.len(),
{
    if steps.len() > 0 {
        lemma_run_inputs_follow_trust(init, steps.drop_last());
        let (s1, a1) = spec_run(init, steps.drop_last());
        let (s2, a2) = spec_step(s1, steps.last());
        lemma_step_trust(s1, steps.last());
        let all = a1 + a2;
        assert(spec_run(init, steps).1 == all);
        assert forall|i: int| 0 <= i < all.len() && #[trigger] is_input_action(all[i]) implies exists|j: int|
            0 <= j < i && #[trigger] is_trusted_report(all[j]) by {
            if i < a1.len() {
                assert(all[i] == a1[i]);
                let j = choose|j: int| 0 <= j < i && #[trigger] is_trusted_report(a1[j]);
                assert(all[j] == a1[j]);
            } else {
                let k = i - a1.len();
                assert(all[i] == a2[k]);
                if s1.trusted {
                    let j = choose|j: int| 0 <= j < a1.len() && #[trigger] is_trusted_report(a1[j]);
                    assert(all[j] == a1[j]);
                } else {
                    let j = choose|j: int| 0 <= j < k && #[trigger] is_trusted_report(a2[j]);
                    assert(all[a1.len() as int + j] == a2[j]);
                }
            }
        }
        if s2.trusted {
            if s1.trusted {
                let j = choose|j: int| 0 <= j < a1.len() && #[trigger] is_trusted_report(a1[j]);
                assert(all[j] == a1[j]);
            } else {
                let j = choose|j: int| 0 <= j < a2.len() && #[trigger] is_trusted_report(a2[j]);
                assert(all[a1.len() as int + j] == a2[j]);
            }
        }
    }
}

/// What each decoded frame from an identified peer `p` does, whatever
/// the sender field says:
/// - `hello` records the peer's name and reports the hello;
/// - `pairRequest` records the requester's name as pending and reports
///   the request;
/// - an accepted `pairResponse` trusts the peer (stored under its `hello`
///   name, or its id before any `hello`) and reports it trusted; a
///   rejected one reports the rejection and trusts nobody;
/// - `heartbeat` is reported;
/// - `inputEvent` is reported exactly when the peer is trusted;
/// - `releaseControl` is reported with its reason, so the controller
///   stops forwarding input at once.
/// None of them changes the peer's identity, and only an accepted
/// `pairResponse` changes trust.
pub proof fn lemma_identified_peer_frames(
    st: SessionView,
    sender: Seq<char>,
    sender_trusted: bool,
    h: HelloView,
    r: PairRequestView,
    resp: PairResponseView,
    e: InputEventMessage,
    reason: Seq<char>,
)
    requires
        st.peer is Some,
    ensures
        ({
            let p = st.peer->0;
            &&& spec_on_frame(st, sender, sender_trusted, FrameView::Hello(Some(h))) == (
                SessionView { peer_name: Some(h.device_name), ..st },
                seq![ActionView::Emit(EventView::PeerHello(p, h))],
            )
            &&& spec_on_frame(st, sender, sender_trusted, FrameView::PairRequest(Some(r))) == (
                SessionView { pending_pairing: Some(r.requester_device_name), ..st },
                seq![ActionView::Emit(EventView::PairingRequested(p, r))],
            )
            &&& resp.accepted ==> spec_on_frame(
                st,
                sender,
                sender_trusted,
                FrameView::PairResponse(Some(resp)),
            ) == (
                SessionView { trusted: true, ..st },
                seq![
                    ActionView::TrustPeer(
                        p,
                        match st.peer_name {
                            Some(n) => n,
                            None => p,
                        },
                    ),
                    ActionView::Emit(EventView::Trusted(p)),
                ],
            )
            &&& !resp.accepted ==> spec_on_frame(
                st,
                sender,
                sender_trusted,
                FrameView::PairResponse(Some(resp)),
            ) == (st, seq![ActionView::Emit(EventView::PairingRejected(p))])
            &&& spec_on_frame(st, sender, sender_trusted, FrameView::Heartbeat(true)) == (
                st,
                seq![ActionView::Emit(EventView::HeartbeatReceived)],
            )
            &&& spec_on_frame(st, sender, sender_trusted, FrameView::InputEvent(Some(e))) == (
                st,
                if st.trusted {
                    seq![ActionView::Emit(EventView::InputEvent(e))]
                } else {
                    Seq::empty()
                },
            )
            &&& spec_on_frame(st, sender, sender_trusted, FrameView::ReleaseControl(Some(reason)))
                == (st, seq![ActionView::Emit(EventView::ReleaseControl(reason))])
        }),
{
    assert(Seq::<ActionView>::empty() + seq![ActionView::Emit(EventView::PeerHello(st.peer->0, h))]
        =~= seq![ActionView::Emit(EventView::PeerHello(st.peer->0, h))]);
    assert(Seq::<ActionView>::empty() + seq![ActionView::Emit(EventView::PairingRequested(st.peer->0, r))]
        =~= seq![ActionView::Emit(EventView::PairingRequested(st.peer->0, r))]);
    assert(Seq::<ActionView>::empty() + seq![
        ActionView::TrustPeer(st.peer->0, friendly_name(st, st.peer->0)),
        ActionView::Emit(EventView::Trusted(st.peer->0)),
    ] =~= seq![
        ActionView::TrustPeer(st.peer->0, friendly_name(st, st.peer->0)),
        ActionView::Emit(EventView::Trusted(st.peer->0)),
    ]);
    assert(Seq::<ActionView>::empty() + seq![ActionView::Emit(EventView::PairingRejected(st.peer->0))]
        =~= seq![ActionView::Emit(EventView::PairingRejected(st.peer->0))]);
    assert(Seq::<ActionView>::empty() + seq![ActionView::Emit(EventView::HeartbeatReceived)]
        =~= seq![ActionView::Emit(EventView::HeartbeatReceived)]);
    assert(Seq::<ActionView>::empty() + seq![ActionView::Emit(EventView::InputEvent(e))]
        =~= seq![ActionView::Emit(EventView::InputEvent(e))]);
    assert(Seq::<ActionView>::empty() + Seq::<ActionView>::empty() =~= Seq::<ActionView>::empty());
    assert(Seq::<ActionView>::empty() + seq![ActionView::Emit(EventView::ReleaseControl(reason))]
        =~= seq![ActionView::Emit(EventView::ReleaseControl(reason))]);
}

/// A `releaseControl` frame is always reported with its reason, as the
/// last action of the step: after the identification actions when it is
/// the peer's first frame.
pub proof fn lemma_release_control_reported(
    st: SessionView,
    sender: Seq<char>,
    sender_trusted: bool,
    reason: Seq<char>,
)
    ensures
        spec_on_frame(st, sender, sender_trusted, FrameView::ReleaseControl(Some(reason))).1.len() > 0,
        spec_on_frame(st, sender, sender_trusted, FrameView::ReleaseControl(Some(reason))).1.last()
            == ActionView::Emit(EventView::ReleaseControl(reason)),
{
}

/// The first frame identifies its sender: it is reported as identified
/// first; a sender the trust store trusts is then reported trusted, any
/// other is sent this device's `pairRequest` with an empty PIN hash.
pub proof fn lemma_first_frame_identifies(st: SessionView, sender: Seq<char>, sender_trusted: bool, frame: FrameView)
    requires
        st.peer is None,
    ensures
        spec_on_frame(st, sender, sender_trusted, frame).0.peer == Some(sender),
        spec_on_frame(st, sender, sender_trusted, frame).1.len() >= 2,
        spec_on_frame(st, sender, sender_trusted, frame).1[0] == ActionView::Emit(
            EventView::PeerIdentified(sender),
        ),
        sender_trusted ==> spec_on_frame(st, sender, sender_trusted, frame).1[1] == ActionView::Emit(
            EventView::Trusted(sender),
        ),
        !sender_trusted ==> spec_on_frame(st, sender, sender_trusted, frame).1[1] == ActionView::Send(
            OutgoingView::PairRequest(
                PairRequestView {
                    requester_device_id: st.local_device_id,
                    requester_device_name: st.local_device_name,
                    pin_hash: Seq::empty(),
                },
            ),
        ),
{
}

/// The user's answer to a pending `pairRequest` from identified peer `p`
/// whose requester name is `n`: accepting trusts `p` under the name `n`,
/// answers with an accepting `pairResponse` that names `p`, and reports
/// `p` trusted; rejecting answers with a `pairResponse` giving the reason
/// "rejected by user" and reports the rejection. Either way the request is
/// settled.
pub proof fn lemma_pairing_decision(st: SessionView, accepted: bool)
    requires
        st.peer is Some,
        st.pending_pairing is Some,
    ensures
        ({
            let p = st.peer->0;
            let n = st.pending_pairing->0;
            let (next, actions) = spec_on_pairing_decision(st, accepted);
            &&& next.pending_pairing is None
            &&& next.peer == st.peer
            &&& accepted ==> next.trusted && actions == seq![
                ActionView::TrustPeer(p, n),
                ActionView::Send(
                    OutgoingView::PairResponse(
                        PairResponseView {
                            accepted: true,
                            trusted_device_id: Some(p),
                            rejection_reason: None,
                        },
                    ),
                ),
                ActionView::Emit(EventView::Trusted(p)),
            ]
            &&& !accepted ==> next.trusted == st.trusted && actions == seq![
                ActionView::Send(
                    OutgoingView::PairResponse(
                        PairResponseView {
                            accepted: false,
                            trusted_device_id: None,
                            rejection_reason: Some("rejected by user"@),
                        },
                    ),
                ),
                ActionView::Emit(EventView::PairingRejected(p)),
            ]
        }),
{
}

/// Pairing end to end: after an identified peer's `pairRequest`, the
/// user's acceptance trusts that peer under the requester name the request
/// carried.
pub proof fn lemma_accepted_request_trusts_under_requester_name(
    st: SessionView,
    sender: Seq<char>,
    sender_trusted: bool,
    r: PairRequestView,
)
    requires
        st.peer is Some,
    ensures
        ({
            let after_request = spec_on_frame(st, sender, sender_trusted, FrameView::PairRequest(Some(r))).0;
            let (next, actions) = spec_on_pairing_decision(after_request, true);
            &&& next.trusted
            &&& actions[0] == ActionView::TrustPeer(st.peer->0, r.requester_device_name)
        }),
{
    lemma_identified_peer_frames(
        st,
        sender,
        sender_trusted,
        HelloView {
            device_name: Seq::empty(),
            device_model: Seq::empty(),
            app_version: Seq::empty(),
            roles: Seq::empty(),
            platform: None,
        },
        r,
        PairResponseView { accepted: true, trusted_device_id: None, rejection_reason: None },
        InputEventMessage {
            kind: crate::input_event::InputEventKind::MouseMove,
            x: None,
            y: None,
            delta_x: None,
            delta_y: None,
            button: None,
            key_code: None,
            media_key: None,
            modifier_flags: 0,
            pressed: None,
            click_state: None,
        },
        Seq::empty(),
    );
    let after_request = spec_on_frame(st, sender, sender_trusted, FrameView::PairRequest(Some(r))).0;
    lemma_pairing_decision(after_request, true);
}

/// Requests of the connection manager: input goes out exactly when the
/// peer is trusted (and is otherwise dropped, not queued); `releaseControl`
/// always goes out with its reason; manual trust of an identified peer
/// trusts it under its `hello` name (or its id) and reports it trusted.
/// None of them changes the peer or, except manual trust, trust.
pub proof fn lemma_requests(st: SessionView, e: InputEventMessage, r: ReleaseControlPayload)
    ensures
        spec_on_request(st, OutgoingRequest::Input(e)) == (
            st,
            if st.trusted {
                seq![ActionView::Send(OutgoingView::InputEvent(e))]
            } else {
                Seq::empty()
            },
        ),
        spec_on_request(st, OutgoingRequest::ReleaseControl(r)) == (
            st,
            seq![ActionView::Send(OutgoingView::ReleaseControl(r@))],
        ),
        st.peer is Some ==> spec_on_request(st, OutgoingRequest::TrustManually) == (
            SessionView { trusted: true, ..st },
            seq![
                ActionView::TrustPeer(
                    st.peer->0,
                    match st.peer_name {
                        Some(n) => n,
                        None => st.peer->0,
                    },
                ),
                ActionView::Emit(EventView::Trusted(st.peer->0)),
            ],
        ),
        st.peer is None ==> spec_on_request(st, OutgoingRequest::TrustManually) == (st, Seq::<ActionView>::empty()),
{
}

} // verus!
