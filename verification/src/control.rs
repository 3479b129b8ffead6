//! The decisions of the multi-peer connection manager: which connections
//! exist and what device each one turned out to be, which peer this device
//! is controlling (`active_receiver`), which peer is controlling this device
//! (`being_controlled_by`), and the Emergency Stop that halts input in both
//! directions.
//!
//! Connections are keyed by a connection id, not a device id: a device may
//! hold an inbound and an outbound connection to the same peer, and the
//! device id is only known once the peer's first frame arrives.

use vstd::prelude::*;
use crate::input_event::{CONTROL, InputEventKind, InputEventMessage, SHIFT};

verus! {

/// Identifies one connection for the lifetime of the manager.
pub type ConnId = u64;

/// macOS virtual key code of Escape.
pub const MAC_ESCAPE_KEYCODE: u16 = 53;

/// Which side opened a connection.
#[derive(Debug, Clone, Copy, PartialEq, Eq, Structural)]
pub enum Direction {
    Inbound,
    Outbound,
}

/// Whether a captured event is the Emergency Stop hotkey: Escape pressed
/// while both Control and Shift are held. Other modifiers may be held too.
pub open spec fn spec_is_emergency_stop_hotkey(event: InputEventMessage) -> bool {
    &&& event.kind == InputEventKind::KeyDown
    &&& event.key_code == Some(MAC_ESCAPE_KEYCODE)
    &&& event.modifier_flags & SHIFT != 0
    &&& event.modifier_flags & CONTROL != 0
}

/// Ctrl+Shift+Escape, the global Emergency Stop toggle.
pub fn is_emergency_stop_hotkey(event: &InputEventMessage) -> (is_hotkey: bool)
    ensures
        is_hotkey == spec_is_emergency_stop_hotkey(*event),
{
    matches!(event.kind, InputEventKind::KeyDown) && event.key_code == Some(MAC_ESCAPE_KEYCODE)
        && event.modifier_flags & SHIFT != 0 && event.modifier_flags & CONTROL != 0
}

/// The Emergency Stop hotkey is Ctrl+Shift+Escape pressed: an event
/// without Control (Shift+Escape, say), without Shift, of another key, or
/// a key release, is never the hotkey and goes on as ordinary input; a
/// press of Escape with both Control and Shift held is, whatever else is
/// held.
pub proof fn lemma_hotkey_needs_control_shift_escape(event: InputEventMessage)
    ensures
        event.modifier_flags & CONTROL == 0 ==> !spec_is_emergency_stop_hotkey(event),
        event.modifier_flags & SHIFT == 0 ==> !spec_is_emergency_stop_hotkey(event),
        event.key_code != Some(MAC_ESCAPE_KEYCODE) ==> !spec_is_emergency_stop_hotkey(event),
        event.kind != InputEventKind::KeyDown ==> !spec_is_emergency_stop_hotkey(event),
        event.kind == InputEventKind::KeyDown && event.key_code == Some(53u16)
            && event.modifier_flags & 0x2_0000 != 0 && event.modifier_flags & 0x4_0000 != 0
            ==> spec_is_emergency_stop_hotkey(event),
        (event.kind == InputEventKind::KeyDown && event.key_code == Some(53u16)
            && event.modifier_flags == 0x2_0000) ==> !spec_is_emergency_stop_hotkey(event),
{
    let f = event.modifier_flags;
    assert(f == 0x2_0000u64 ==> f & 0x4_0000u64 == 0) by (bit_vector);
}

/// One connection and the device id learned on it, if any yet.
pub struct PeerEntry {
    pub conn_id: ConnId,
    pub device_id: Option<String>,
}

/// The abstract view of a peer entry.
pub open spec fn entry_view(e: PeerEntry) -> (ConnId, Option<Seq<char>>) {
    (
        e.conn_id,
        match e.device_id {
            Some(d) => Some(d@),
            None => None,
        },
    )
}

/// The registry with every entry of connection `conn_id` removed.
pub open spec fn without_conn(peers: Seq<(ConnId, Option<Seq<char>>)>, conn_id: ConnId) -> Seq<
    (ConnId, Option<Seq<char>>),
>
    decreases peers.len(),
{
    if peers.len() == 0 {
        peers
    } else {
        let rest = without_conn(peers.drop_last(), conn_id);
        if peers.last().0 == conn_id {
            rest
        } else {
            rest.push(peers.last())
        }
    }
}

/// The device ids known so far, in registry order.
pub open spec fn known_ids(peers: Seq<(ConnId, Option<Seq<char>>)>) -> Seq<Seq<char>>
    decreases peers.len(),
{
    if peers.len() == 0 {
        Seq::empty()
    } else {
        let rest = known_ids(peers.drop_last());
        match peers.last().1 {
            Some(d) => rest.push(d),
            None => rest,
        }
    }
}

/// Whether the registry holds connection `conn_id`.
pub open spec fn registered(peers: Seq<(ConnId, Option<Seq<char>>)>, conn_id: ConnId) -> bool {
    exists|i: int| 0 <= i < peers.len() && #[trigger] peers[i].0 == conn_id
}

/// What to do with one piece of local hardware input.
#[derive(Debug, Clone, Copy, PartialEq, Eq, Structural)]
pub struct LocalInputAction {
    /// The input was the Emergency Stop hotkey: it toggled the stop and
    /// goes nowhere else.
    pub consumed: bool,
    /// Send `releaseControl` to this connection: it was controlling this
    /// device, and local input takes control back.
    pub release_to: Option<ConnId>,
    /// Forward the input to this connection, the active receiver.
    pub forward_to: Option<ConnId>,
}

/// The connection manager's control state.
pub struct ControlState {
    peers: Vec<PeerEntry>,
    next_conn_id: ConnId,
    active_receiver: Option<ConnId>,
    being_controlled_by: Option<ConnId>,
    emergency_stopped: bool,
}

impl ControlState {
    /// The connections, in the order they were registered, each with the
    /// device id learned on it.
    pub closed spec fn peers(&self) -> Seq<(ConnId, Option<Seq<char>>)> {
        self.peers@.map_values(|e: PeerEntry| entry_view(e))
    }

    /// The id the next registered connection gets.
    pub closed spec fn next_id(&self) -> ConnId {
        self.next_conn_id
    }

    /// The peer this device is sending its input to.
    pub closed spec fn active(&self) -> Option<ConnId> {
        self.active_receiver
    }

    /// The peer whose input this device is injecting.
    pub closed spec fn controller(&self) -> Option<ConnId> {
        self.being_controlled_by
    }

    /// Whether the Emergency Stop is on.
    pub closed spec fn stopped(&self) -> bool {
        self.emergency_stopped
    }

    /// The receiver that captured input goes to: the active receiver,
    /// unless the Emergency Stop is on or that connection is gone.
    pub open spec fn forward_target(&self) -> Option<ConnId> {
        match self.active() {
            Some(c) => if !self.stopped() && registered(self.peers(), c) {
                Some(c)
            } else {
                None
            },
            None => None,
        }
    }

    /// No connections, nobody controlling or controlled, not stopped.
    pub fn new() -> (state: ControlState)
        ensures
            state.peers() == Seq::<(ConnId, Option<Seq<char>>)>::empty(),
            state.next_id() == 0,
            state.active() is None,
            state.controller() is None,
            !state.stopped(),
    {
        let state = ControlState {
            peers: Vec::new(),
            next_conn_id: 0,
            active_receiver: None,
            being_controlled_by: None,
            emergency_stopped: false,
        };
        assert(state.peers() =~= Seq::<(ConnId, Option<Seq<char>>)>::empty());
        state
    }

    /// Registers a new connection and returns its id. Ids count up from 0
    /// (wrapping, as the atomic counter they model does).
    pub fn register_peer(&mut self) -> (conn_id: ConnId)
        ensures
            conn_id == old(self).next_id(),
            final(self).next_id() == (if old(self).next_id() == u64::MAX {
                0
            } else {
                (old(self).next_id() + 1) as u64
            }),
            final(self).peers() == old(self).peers().push((conn_id, None)),
            final(self).active() == old(self).active(),
            final(self).controller() == old(self).controller(),
            final(self).stopped() == old(self).stopped(),
    {
        let conn_id = self.next_conn_id;
        self.next_conn_id = self.next_conn_id.wrapping_add(1);
        self.peers.push(PeerEntry { conn_id, device_id: None });
        assert(self.peers() =~= old(self).peers().push((conn_id, None)));
        conn_id
    }

    /// Whether connection `conn_id` is registered.
    pub fn has_peer(&self, conn_id: ConnId) -> (found: bool)
        ensures
            found == registered(self.peers(), conn_id),
    {
        let mut i: usize = 0;
        while i < self.peers.len()
            invariant
                0 <= i <= self.peers.len(),
                forall|j: int| 0 <= j < i ==> self.peers@[j].conn_id != conn_id,
            decreases self.peers.len() - i,
        {
            if self.peers[i].conn_id == conn_id {
                assert(self.peers()[i as int].0 == conn_id);
                return true;
            }
            i = i + 1;
        }
        assert forall|j: int| 0 <= j < self.peers().len() implies self.peers()[j].0 != conn_id by {
            assert(self.peers()[j] == entry_view(self.peers@[j]));
        }
        false
    }

    /// Records the device id learned on connection `conn_id` (from its
    /// first frame, or from a trust decision).
    pub fn identify(&mut self, conn_id: ConnId, device_id: &String)
        ensures
            final(self).peers().len() == old(self).peers().len(),
            forall|i: int|
                0 <= i < old(self).peers().len() ==> #[trigger] final(self).peers()[i] == (if old(
                    self,
                ).peers()[i].0 == conn_id {
                    (conn_id, Some(device_id@))
                } else {
                    old(self).peers()[i]
                }),
            final(self).next_id() == old(self).next_id(),
            final(self).active() == old(self).active(),
            final(self).controller() == old(self).controller(),
            final(self).stopped() == old(self).stopped(),
    {
        let mut i: usize = 0;
        while i < self.peers.len()
            invariant
                0 <= i <= self.peers.len(),
                self.peers.len() == old(self).peers.len(),
                self.next_conn_id == old(self).next_conn_id,
                self.active_receiver == old(self).active_receiver,
                self.being_controlled_by == old(self).being_controlled_by,
                self.emergency_stopped == old(self).emergency_stopped,
                forall|j: int|
                    0 <= j < self.peers.len() ==> #[trigger] entry_view(self.peers@[j]) == (if j < i
                        && old(self).peers@[j].conn_id == conn_id {
                        (conn_id, Some(device_id@))
                    } else {
                        entry_view(old(self).peers@[j])
                    }),
            decreases self.peers.len() - i,
        {
            assert(entry_view(self.peers@[i as int]) == entry_view(old(self).peers@[i as int]));
            if self.peers[i].conn_id == conn_id {
                let d = device_id.clone();
                assert(d@ == device_id@);
                self.peers.set(i, PeerEntry { conn_id, device_id: Some(d) });
                assert(entry_view(self.peers@[i as int]) == (conn_id, Some(device_id@)));
            }
            i = i + 1;
        }
        assert forall|i: int| 0 <= i < old(self).peers().len() implies #[trigger] self.peers()[i]
            == (if old(self).peers()[i].0 == conn_id {
            (conn_id, Some(device_id@))
        } else {
            old(self).peers()[i]
        }) by {
            assert(self.peers()[i] == entry_view(self.peers@[i]));
            assert(old(self).peers()[i] == entry_view(old(self).peers@[i]));
        }
    }

    /// Forgets a closed connection: removes it from the registry, and
    /// clears it as active receiver and as controller if it was either.
    pub fn disconnect(&mut self, conn_id: ConnId)
        ensures
            final(self).peers() == without_conn(old(self).peers(), conn_id),
            final(self).active() == (if old(self).active() == Some(conn_id) {
                None
            } else {
                old(self).active()
            }),
            final(self).controller() == (if old(self).controller() == Some(conn_id) {
                None
            } else {
                old(self).controller()
            }),
            final(self).next_id() == old(self).next_id(),
            final(self).stopped() == old(self).stopped(),
    {
        let mut kept: Vec<PeerEntry> = Vec::new();
        let mut i: usize = 0;
        while i < self.peers.len()
            invariant
                0 <= i <= self.peers.len(),
                kept@.map_values(|e: PeerEntry| entry_view(e)) =~= without_conn(
                    self.peers@.map_values(|e: PeerEntry| entry_view(e)).subrange(0, i as int),
                    conn_id,
                ),
            decreases self.peers.len() - i,
        {
            let ghost all = self.peers@.map_values(|e: PeerEntry| entry_view(e));
            assert(all.subrange(0, i + 1).drop_last() =~= all.subrange(0, i as int));
            if self.peers[i].conn_id != conn_id {
                let entry = PeerEntry {
                    conn_id: self.peers[i].conn_id,
                    device_id: match &self.peers[i].device_id {
                        Some(d) => Some(d.clone()),
                        None => None,
                    },
                };
                kept.push(entry);
            }
            i = i + 1;
        }
        assert(self.peers@.map_values(|e: PeerEntry| entry_view(e)).subrange(
            0,
            self.peers.len() as int,
        ) =~= self.peers@.map_values(|e: PeerEntry| entry_view(e)));
        self.peers = kept;
        if self.active_receiver == Some(conn_id) {
            self.active_receiver = None;
        }
        if self.being_controlled_by == Some(conn_id) {
            self.being_controlled_by = None;
        }
    }

    /// The device ids learned so far, in registration order.
    pub fn known_device_ids(&self) -> (ids: Vec<String>)
        ensures
            ids@.map_values(|s: String| s@) == known_ids(self.peers()),
    {
        let mut ids: Vec<String> = Vec::new();
        let mut i: usize = 0;
        while i < self.peers.len()
            invariant
                0 <= i <= self.peers.len(),
                ids@.map_values(|s: String| s@) =~= known_ids(
                    self.peers@.map_values(|e: PeerEntry| entry_view(e)).subrange(0, i as int),
                ),
            decreases self.peers.len() - i,
        {
            let ghost all = self.peers@.map_values(|e: PeerEntry| entry_view(e));
            assert(all.subrange(0, i + 1).drop_last() =~= all.subrange(0, i as int));
            if let Some(d) = &self.peers[i].device_id {
                ids.push(d.clone());
            }
            i = i + 1;
        }
        assert(self.peers@.map_values(|e: PeerEntry| entry_view(e)).subrange(
            0,
            self.peers.len() as int,
        ) =~= self.peers@.map_values(|e: PeerEntry| entry_view(e)));
        ids
    }

    /// Chooses which connection this device's input goes to; `None` stops
    /// sending.
    pub fn set_active_receiver(&mut self, conn_id: Option<ConnId>)
        ensures
            final(self).active() == conn_id,
            final(self).peers() == old(self).peers(),
            final(self).next_id() == old(self).next_id(),
            final(self).controller() == old(self).controller(),
            final(self).stopped() == old(self).stopped(),
    {
        self.active_receiver = conn_id;
    }

    /// The connection this device's input goes to, if any.
    pub fn active_receiver(&self) -> (conn_id: Option<ConnId>)
        ensures
            conn_id == self.active(),
    {
        self.active_receiver
    }

    /// The connection whose input this device is injecting, if any.
    pub fn being_controlled_by(&self) -> (conn_id: Option<ConnId>)
        ensures
            conn_id == self.controller(),
    {
        self.being_controlled_by
    }

    /// Halts input in both directions. A pause, not a teardown: the active
    /// receiver, the controller and the connections all stay as they are.
    pub fn emergency_stop(&mut self)
        ensures
            final(self).stopped(),
            final(self).peers() == old(self).peers(),
            final(self).next_id() == old(self).next_id(),
            final(self).active() == old(self).active(),
            final(self).controller() == old(self).controller(),
    {
        self.emergency_stopped = true;
    }

    /// Lifts the Emergency Stop, everything else unchanged.
    pub fn resume(&mut self)
        ensures
            !final(self).stopped(),
            final(self).peers() == old(self).peers(),
            final(self).next_id() == old(self).next_id(),
            final(self).active() == old(self).active(),
            final(self).controller() == old(self).controller(),
    {
        self.emergency_stopped = false;
    }

    /// Whether the Emergency Stop is on.
    pub fn is_emergency_stopped(&self) -> (stopped: bool)
        ensures
            stopped == self.stopped(),
    {
        self.emergency_stopped
    }

    /// Where an input event captured here should go: the active receiver,
    /// if one is set and still connected and the Emergency Stop is off.
    pub fn send_to_active_receiver(&self) -> (target: Option<ConnId>)
        ensures
            target == self.forward_target(),
    {
        if self.emergency_stopped {
            return None;
        }
        match self.active_receiver {
            Some(c) => if self.has_peer(c) {
                Some(c)
            } else {
                None
            },
            None => None,
        }
    }

    /// Decides whether an `inputEvent` from the trusted peer on `conn_id`
    /// is injected. Never while the Emergency Stop is on; otherwise the
    /// first peer to send input claims control, and only the holder of
    /// control is injected.
    pub fn on_peer_input(&mut self, conn_id: ConnId) -> (inject: bool)
        ensures
            inject == (!old(self).stopped() && (old(self).controller() is None || old(
                self,
            ).controller() == Some(conn_id))),
            final(self).controller() == (if !old(self).stopped() && old(self).controller() is None {
                Some(conn_id)
            } else {
                old(self).controller()
            }),
            inject ==> final(self).controller() == Some(conn_id),
            final(self).peers() == old(self).peers(),
            final(self).next_id() == old(self).next_id(),
            final(self).active() == old(self).active(),
            final(self).stopped() == old(self).stopped(),
    {
        if self.emergency_stopped {
            return false;
        }
        match self.being_controlled_by {
            None => {
                self.being_controlled_by = Some(conn_id);
                true
            },
            Some(existing) => existing == conn_id,
        }
    }

    /// The peer on `conn_id` sent `releaseControl`: stop forwarding input
    /// to it at once. A `releaseControl` from a peer that is not the active
    /// receiver changes nothing.
    pub fn on_release_control(&mut self, conn_id: ConnId)
        ensures
            final(self).active() == (if old(self).active() == Some(conn_id) {
                None
            } else {
                old(self).active()
            }),
            final(self).peers() == old(self).peers(),
            final(self).next_id() == old(self).next_id(),
            final(self).controller() == old(self).controller(),
            final(self).stopped() == old(self).stopped(),
    {
        if self.active_receiver == Some(conn_id) {
            self.active_receiver = None;
        }
    }

    /// One event of local hardware input, already translated. The
    /// Emergency Stop hotkey toggles the stop and is consumed. Any other
    /// input hands control back from a peer controlling this device (that
    /// peer is sent `releaseControl`) and goes to the active receiver,
    /// unless stopped.
    pub fn on_local_input(&mut self, event: &InputEventMessage) -> (action: LocalInputAction)
        ensures
            spec_is_emergency_stop_hotkey(*event) ==> {
                &&& action == LocalInputAction { consumed: true, release_to: None, forward_to: None }
                &&& final(self).stopped() == !old(self).stopped()
                &&& final(self).controller() == old(self).controller()
            },
            !spec_is_emergency_stop_hotkey(*event) ==> {
                &&& action.consumed == false
                &&& action.release_to == old(self).controller()
                &&& action.forward_to == old(self).forward_target()
                &&& final(self).stopped() == old(self).stopped()
                &&& final(self).controller() is None
            },
            final(self).peers() == old(self).peers(),
            final(self).next_id() == old(self).next_id(),
            final(self).active() == old(self).active(),
    {
        if is_emergency_stop_hotkey(event) {
            self.emergency_stopped = !self.emergency_stopped;
            return LocalInputAction { consumed: true, release_to: None, forward_to: None };
        }
        let release_to = self.being_controlled_by;
        self.being_controlled_by = None;
        let forward_to = self.send_to_active_receiver();
        LocalInputAction { consumed: false, release_to, forward_to }
    }
}

/// A disconnected connection is gone for good: it is no longer registered,
/// while every other connection keeps its registration.
pub proof fn lemma_disconnect_forgets(peers: Seq<(ConnId, Option<Seq<char>>)>, conn_id: ConnId)
    ensures
        !registered(without_conn(peers, conn_id), conn_id),
        forall|c: ConnId|
            c != conn_id ==> (registered(without_conn(peers, conn_id), c) <==> registered(
                peers,
                c,
            )),
    decreases peers.len(),
{
    if peers.len() > 0 {
        let init = peers.drop_last();
        lemma_disconnect_forgets(init, conn_id);
        let rest = without_conn(init, conn_id);
        let all = without_conn(peers, conn_id);
        assert forall|k: int| 0 <= k < rest.len() implies all[k] == rest[k] by {}
        assert forall|c: ConnId| c != conn_id implies (registered(all, c) <==> registered(
            peers,
            c,
        )) by {
            if registered(peers, c) {
                let i = choose|i: int| 0 <= i < peers.len() && #[trigger] peers[i].0 == c;
                if i < peers.len() - 1 {
                    assert(init[i].0 == c);
                    assert(registered(init, c));
                    assert(registered(rest, c));
                    let k = choose|k: int| 0 <= k < rest.len() && #[trigger] rest[k].0 == c;
                    assert(all[k].0 == c);
                } else {
                    assert(all[rest.len() as int].0 == c);
                }
            }
            if registered(all, c) {
                let i = choose|i: int| 0 <= i < all.len() && #[trigger] all[i].0 == c;
                if i < rest.len() {
                    assert(rest[i].0 == c);
                    assert(registered(rest, c));
                    assert(registered(init, c));
                    let j = choose|j: int| 0 <= j < init.len() && #[trigger] init[j].0 == c;
                    assert(peers[j].0 == c);
                } else {
                    assert(peers[peers.len() - 1].0 == c);
                }
            }
        }
        if registered(all, conn_id) {
            let i = choose|i: int| 0 <= i < all.len() && #[trigger] all[i].0 == conn_id;
            assert(i < rest.len());
            assert(rest[i].0 == conn_id);
        }
    }
}

/// While the Emergency Stop is on, captured input is forwarded nowhere
/// (and `on_peer_input` injects nothing, by its own contract). With the
/// stop off, input goes to the active receiver while it is connected.
pub proof fn lemma_emergency_stop_halts_input(state: ControlState)
    ensures
        state.stopped() ==> state.forward_target() is None,
        !state.stopped() && state.active() is Some && registered(state.peers(), state.active()->0)
            ==> state.forward_target() == state.active(),
{
}

} // verus!
