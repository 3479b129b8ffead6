//! What the Devices and Pairing pages show, kept up to date from the
//! connection manager's events: one row per connection, in connection
//! order, and the pairing requests waiting for the user. Drawing the
//! widgets, and holding the channel that answers a pairing request, are
//! the caller's job.

use vstd::prelude::*;
use crate::control::{ConnId, Direction};

verus! {

/// One connection as the Devices page shows it.
pub struct DeviceRow {
    /// The peer's device id, once it is trusted.
    pub device_id: Option<String>,
    /// The name from the peer's `hello`, once it arrived.
    pub name: Option<String>,
    pub direction: Direction,
    pub trusted: bool,
}

/// The abstract contents of a row.
pub struct DeviceRowView {
    pub device_id: Option<Seq<char>>,
    pub name: Option<Seq<char>>,
    pub direction: Direction,
    pub trusted: bool,
}

impl View for DeviceRow {
    type V = DeviceRowView;

    open spec fn view(&self) -> DeviceRowView {
        DeviceRowView {
            device_id: match self.device_id {
                Some(d) => Some(d@),
                None => None,
            },
            name: match self.name {
                Some(n) => Some(n@),
                None => None,
            },
            direction: self.direction,
            trusted: self.trusted,
        }
    }
}

/// How a row reads: trusted, identified and pairing, or still connecting.
#[derive(Debug, Clone, Copy, PartialEq, Eq, Structural)]
pub enum RowStatus {
    Trusted,
    Pairing,
    Connecting,
}

/// The status a row shows.
pub open spec fn spec_row_status(row: DeviceRowView) -> RowStatus {
    match row.device_id {
        Some(_) => if row.trusted {
            RowStatus::Trusted
        } else {
            RowStatus::Pairing
        },
        None => RowStatus::Connecting,
    }
}

impl DeviceRow {
    /// The status this row shows; only a trusted row offers "Control this
    /// device".
    pub fn status(&self) -> (status: RowStatus)
        ensures
            status == spec_row_status(self@),
    {
        match &self.device_id {
            Some(_) => if self.trusted {
                RowStatus::Trusted
            } else {
                RowStatus::Pairing
            },
            None => RowStatus::Connecting,
        }
    }
}

/// An event of the connection manager, as far as these pages care.
pub enum DeviceListEvent {
    PeerConnected { conn_id: ConnId, direction: Direction },
    PeerHello { conn_id: ConnId, device_name: String },
    PairingRequested { conn_id: ConnId, requester_name: String },
    Trusted { conn_id: ConnId, device_id: String },
    PairingRejected { conn_id: ConnId },
    PeerDisconnected { conn_id: ConnId },
    /// Heartbeats, input, `releaseControl`: nothing to show yet.
    Other,
}

/// The pages' data.
pub struct DeviceList {
    rows: Vec<(ConnId, DeviceRow)>,
    pending: Vec<(ConnId, String)>,
    row_map: Ghost<Map<ConnId, DeviceRowView>>,
    pending_map: Ghost<Map<ConnId, Seq<char>>>,
}

impl DeviceList {
    /// Rows sorted by connection id, matching the row map; pending
    /// requests once per connection, matching the pending map.
    pub closed spec fn wf(&self) -> bool {
        &&& forall|i: int, j: int|
            0 <= i < j < self.rows@.len() ==> self.rows@[i].0 < self.rows@[j].0
        &&& forall|i: int|
            0 <= i < self.rows@.len() ==> self.row_map@.contains_key(#[trigger] self.rows@[i].0)
                && self.row_map@[self.rows@[i].0] == self.rows@[i].1@
        &&& forall|c: ConnId| #[trigger]
            self.row_map@.contains_key(c) ==> exists|i: int|
                0 <= i < self.rows@.len() && #[trigger] self.rows@[i].0 == c
        &&& forall|i: int, j: int|
            0 <= i < j < self.pending@.len() ==> self.pending@[i].0 != self.pending@[j].0
        &&& forall|i: int|
            0 <= i < self.pending@.len() ==> self.pending_map@.contains_key(
                #[trigger] self.pending@[i].0,
            ) && self.pending_map@[self.pending@[i].0] == self.pending@[i].1@
        &&& forall|c: ConnId| #[trigger]
            self.pending_map@.contains_key(c) ==> exists|i: int|
                0 <= i < self.pending@.len() && #[trigger] self.pending@[i].0 == c
    }

    /// The rows by connection id.
    pub closed spec fn rows_view(&self) -> Map<ConnId, DeviceRowView> {
        self.row_map@
    }

    /// The pending pairing requests: connection id to requester name.
    pub closed spec fn pending_view(&self) -> Map<ConnId, Seq<char>> {
        self.pending_map@
    }

    /// Nothing shown.
    pub fn new() -> (list: DeviceList)
        ensures
            list.wf(),
            list.rows_view() == Map::<ConnId, DeviceRowView>::empty(),
            list.pending_view() == Map::<ConnId, Seq<char>>::empty(),
    {
        DeviceList {
            rows: Vec::new(),
            pending: Vec::new(),
            row_map: Ghost(Map::empty()),
            pending_map: Ghost(Map::empty()),
        }
    }

    /// The position of connection `conn_id` among the rows, or where it
    /// would go.
    fn row_position(&self, conn_id: ConnId) -> (pos: usize)
        requires
            self.wf(),
        ensures
            pos <= self.rows@.len(),
            forall|j: int| 0 <= j < pos ==> self.rows@[j].0 < conn_id,
            pos < self.rows@.len() ==> self.rows@[pos as int].0 >= conn_id,
    {
        let mut i: usize = 0;
        while i < self.rows.len() && self.rows[i].0 < conn_id
            invariant
                0 <= i <= self.rows@.len(),
                forall|j: int| 0 <= j < i ==> self.rows@[j].0 < conn_id,
            decreases self.rows.len() - i,
        {
            i = i + 1;
        }
        i
    }

    /// The position of connection `conn_id` among the pending requests.
    fn pending_position(&self, conn_id: ConnId) -> (pos: Option<usize>)
        ensures
            match pos {
                Some(i) => i < self.pending@.len() && self.pending@[i as int].0 == conn_id,
                None => forall|i: int| 0 <= i < self.pending@.len() ==> self.pending@[i].0 != conn_id,
            },
    {
        let mut i: usize = 0;
        while i < self.pending.len()
            invariant
                0 <= i <= self.pending@.len(),
                forall|j: int| 0 <= j < i ==> self.pending@[j].0 != conn_id,
            decreases self.pending.len() - i,
        {
            if self.pending[i].0 == conn_id {
                return Some(i);
            }
            i = i + 1;
        }
        None
    }

    /// Shows a new connection, replacing any row it had.
    fn put_row(&mut self, conn_id: ConnId, row: DeviceRow)
        requires
            old(self).wf(),
        ensures
            final(self).wf(),
            final(self).rows_view() == old(self).rows_view().insert(conn_id, row@),
            final(self).pending_view() == old(self).pending_view(),
    {
        let pos = self.row_position(conn_id);
        let ghost old_rows = self.rows@;
        let ghost key = conn_id;
        let ghost rv = row@;
        let ghost new_map = self.row_map@.insert(conn_id, row@);
        if pos < self.rows.len() && self.rows[pos].0 == conn_id {
            self.rows.set(pos, (conn_id, row));
        } else {
            self.rows.insert(pos, (conn_id, row));
        }
        self.row_map = Ghost(new_map);
        proof {
            let rows = self.rows@;
            let replaced = rows.len() == old_rows.len();
            assert forall|j: int| 0 <= j < rows.len() implies #[trigger] rows[j] == (if replaced {
                if j == pos {
                    rows[j]
                } else {
                    old_rows[j]
                }
            } else if j < pos {
                old_rows[j]
            } else if j == pos {
                rows[j]
            } else {
                old_rows[j - 1]
            }) by {}
            assert(rows[pos as int].0 == key && rows[pos as int].1@ == rv);
            assert forall|i: int, j: int| 0 <= i < j < rows.len() implies rows[i].0 < rows[j].0 by {
                if !replaced && i < pos && j > pos {
                    assert(old_rows[i].0 < key);
                    assert(old_rows[j - 1].0 >= key);
                    if old_rows[j - 1].0 == key {
                        assert(old_rows[pos as int].0 <= old_rows[j - 1].0);
                    }
                } else if !replaced && i == pos && j > pos {
                    assert(old_rows[j - 1].0 >= old_rows[pos as int].0);
                } else if !replaced && j == pos {
                } else if replaced && i == pos {
                    assert(old_rows[pos as int].0 == key);
                } else if replaced && j == pos {
                    assert(old_rows[pos as int].0 == key);
                }
            }
            assert forall|i: int| 0 <= i < rows.len() implies new_map.contains_key(#[trigger] rows[i].0)
                && new_map[rows[i].0] == rows[i].1@ by {
                if i != pos {
                    let oi = if !replaced && i > pos { i - 1 } else { i };
                    assert(rows[i] == old_rows[oi]);
                    if old_rows[oi].0 == key {
                        if replaced {
                            assert(old_rows[pos as int].0 == key);
                        } else if oi < pos {
                        } else {
                            assert(old_rows[oi].0 >= old_rows[pos as int].0);
                        }
                    }
                }
            }
            assert forall|c: ConnId| #[trigger] new_map.contains_key(c) implies exists|i: int|
                0 <= i < rows.len() && #[trigger] rows[i].0 == c by {
                if c == key {
                    assert(rows[pos as int].0 == c);
                } else {
                    let j = choose|j: int| 0 <= j < old_rows.len() && #[trigger] old_rows[j].0 == c;
                    if rows.len() == old_rows.len() {
                        assert(rows[j].0 == c);
                    } else if j < pos {
                        assert(rows[j].0 == c);
                    } else {
                        assert(rows[j + 1].0 == c);
                    }
                }
            }
            assert(self.pending@ == old(self).pending@);
            assert(self.pending_map@ == old(self).pending_map@);
        }
    }

    /// Changes the row of `conn_id`, if it has one.
    fn update_row(&mut self, conn_id: ConnId, device_id: Option<String>, name: Option<String>, trust: bool)
        requires
            old(self).wf(),
        ensures
            final(self).wf(),
            final(self).pending_view() == old(self).pending_view(),
            final(self).rows_view() == (if old(self).rows_view().contains_key(conn_id) {
                let old_row = old(self).rows_view()[conn_id];
                old(self).rows_view().insert(
                    conn_id,
                    DeviceRowView {
                        device_id: match device_id {
                            Some(d) => Some(d@),
                            None => old_row.device_id,
                        },
                        name: match name {
                            Some(n) => Some(n@),
                            None => old_row.name,
                        },
                        trusted: old_row.trusted || trust,
                        ..old_row
                    },
                )
            } else {
                old(self).rows_view()
            }),
    {
        let pos = self.row_position(conn_id);
        if pos < self.rows.len() && self.rows[pos].0 == conn_id {
            let old_row = &self.rows[pos].1;
            let new_row = DeviceRow {
                device_id: match device_id {
                    Some(d) => Some(d),
                    None => match &old_row.device_id {
                        Some(d) => Some(d.clone()),
                        None => None,
                    },
                },
                name: match name {
                    Some(n) => Some(n),
                    None => match &old_row.name {
                        Some(n) => Some(n.clone()),
                        None => None,
                    },
                },
                direction: old_row.direction,
                trusted: old_row.trusted || trust,
            };
            self.put_row(conn_id, new_row);
        } else {
            proof {
                if self.row_map@.contains_key(conn_id) {
                    let j = choose|j: int|
                        0 <= j < self.rows@.len() && #[trigger] self.rows@[j].0 == conn_id;
                    if j < pos {
                    } else if j > pos {
                        assert(self.rows@[pos as int].0 < self.rows@[j].0);
                    }
                }
            }
        }
    }

    /// Forgets the row of `conn_id`.
    fn drop_row(&mut self, conn_id: ConnId)
        requires
            old(self).wf(),
        ensures
            final(self).wf(),
            final(self).rows_view() == old(self).rows_view().remove(conn_id),
            final(self).pending_view() == old(self).pending_view(),
    {
        let pos = self.row_position(conn_id);
        let ghost old_rows = self.rows@;
        let ghost new_map = self.row_map@.remove(conn_id);
        if pos < self.rows.len() && self.rows[pos].0 == conn_id {
            self.rows.remove(pos);
            self.row_map = Ghost(new_map);
            proof {
                let rows = self.rows@;
                assert forall|j: int| 0 <= j < rows.len() implies #[trigger] rows[j] == (if j < pos {
                    old_rows[j]
                } else {
                    old_rows[j + 1]
                }) by {}
                assert forall|i: int, j: int| 0 <= i < j < rows.len() implies rows[i].0 < rows[j].0 by {
                    let oi = if i < pos { i } else { i + 1 };
                    let oj = if j < pos { j } else { j + 1 };
                    assert(rows[i] == old_rows[oi] && rows[j] == old_rows[oj]);
                }
                assert forall|i: int| 0 <= i < rows.len() implies new_map.contains_key(#[trigger] rows[i].0)
                    && new_map[rows[i].0] == rows[i].1@ by {
                    let oi = if i < pos { i } else { i + 1 };
                    assert(rows[i] == old_rows[oi]);
                    assert(oi != pos);
                    if oi < pos {
                        assert(old_rows[oi].0 < old_rows[pos as int].0);
                    } else {
                        assert(old_rows[pos as int].0 < old_rows[oi].0);
                    }
                }
                assert forall|c: ConnId| #[trigger] new_map.contains_key(c) implies exists|i: int|
                    0 <= i < rows.len() && #[trigger] rows[i].0 == c by {
                    let j = choose|j: int| 0 <= j < old_rows.len() && #[trigger] old_rows[j].0 == c;
                    if j < pos {
                        assert(rows[j].0 == c);
                    } else {
                        assert(j != pos);
                        assert(rows[j - 1].0 == c);
                    }
                }
            }
        } else {
            proof {
                if self.row_map@.contains_key(conn_id) {
                    let j = choose|j: int|
                        0 <= j < self.rows@.len() && #[trigger] self.rows@[j].0 == conn_id;
                    if j > pos {
                        assert(self.rows@[pos as int].0 < self.rows@[j].0);
                    }
                }
                assert(new_map =~= self.row_map@);
            }
        }
        assert(self.pending@ == old(self).pending@);
        assert(self.pending_map@ == old(self).pending_map@);
    }

    /// Records a pairing request of `conn_id`, replacing any earlier one.
    fn put_pending(&mut self, conn_id: ConnId, requester_name: String)
        requires
            old(self).wf(),
        ensures
            final(self).wf(),
            final(self).pending_view() == old(self).pending_view().insert(conn_id, requester_name@),
            final(self).rows_view() == old(self).rows_view(),
    {
        let ghost old_pending = self.pending@;
        let ghost key = conn_id;
        let ghost new_map = self.pending_map@.insert(conn_id, requester_name@);
        match self.pending_position(conn_id) {
            Some(i) => {
                self.pending.set(i, (conn_id, requester_name));
                self.pending_map = Ghost(new_map);
                proof {
                    let pending = self.pending@;
                    assert forall|c: ConnId| #[trigger] new_map.contains_key(c) implies exists|j: int|
                        0 <= j < pending.len() && #[trigger] pending[j].0 == c by {
                        if c == key {
                            assert(pending[i as int].0 == c);
                        } else {
                            let j = choose|j: int|
                                0 <= j < old_pending.len() && #[trigger] old_pending[j].0 == c;
                            assert(pending[j].0 == c);
                        }
                    }
                }
            },
            None => {
                self.pending.push((conn_id, requester_name));
                self.pending_map = Ghost(new_map);
                proof {
                    let pending = self.pending@;
                    let n = old_pending.len();
                    assert(pending[n as int].0 == key);
                    assert forall|c: ConnId| #[trigger] new_map.contains_key(c) implies exists|j: int|
                        0 <= j < pending.len() && #[trigger] pending[j].0 == c by {
                        if c == key {
                            assert(pending[n as int].0 == c);
                        } else {
                            let j = choose|j: int|
                                0 <= j < old_pending.len() && #[trigger] old_pending[j].0 == c;
                            assert(pending[j].0 == c);
                        }
                    }
                }
            },
        }
    }

    /// Forgets the pairing request of `conn_id`, returning whether there
    /// was one.
    pub fn take_pending(&mut self, conn_id: ConnId) -> (had: bool)
        requires
            old(self).wf(),
        ensures
            final(self).wf(),
            had == old(self).pending_view().contains_key(conn_id),
            final(self).pending_view() == old(self).pending_view().remove(conn_id),
            final(self).rows_view() == old(self).rows_view(),
    {
        let ghost old_pending = self.pending@;
        let ghost new_map = self.pending_map@.remove(conn_id);
        match self.pending_position(conn_id) {
            Some(i) => {
                self.pending.remove(i);
                self.pending_map = Ghost(new_map);
                proof {
                    let pending = self.pending@;
                    assert forall|j: int| 0 <= j < pending.len() implies #[trigger] pending[j] == (if j
                        < i {
                        old_pending[j]
                    } else {
                        old_pending[j + 1]
                    }) by {}
                    assert forall|c: ConnId| #[trigger] new_map.contains_key(c) implies exists|j: int|
                        0 <= j < pending.len() && #[trigger] pending[j].0 == c by {
                        let j = choose|j: int|
                            0 <= j < old_pending.len() && #[trigger] old_pending[j].0 == c;
                        if j < i {
                            assert(pending[j].0 == c);
                        } else {
                            assert(j != i);
                            assert(pending[j - 1].0 == c);
                        }
                    }
                }
                true
            },
            None => {
                proof {
                    if self.pending_map@.contains_key(conn_id) {
                        let j = choose|j: int|
                            0 <= j < self.pending@.len() && #[trigger] self.pending@[j].0 == conn_id;
                    }
                    assert(new_map =~= self.pending_map@);
                }
                false
            },
        }
    }

    /// Applies one event.
    ///
    /// - a new connection gets a row: no name or id yet, untrusted;
    /// - a `hello` names the connection's row;
    /// - a pairing request waits for the user;
    /// - trust marks the row trusted with its device id, and settles any
    ///   pending request;
    /// - a rejection settles the pending request;
    /// - a disconnect removes the row and any pending request.
    pub fn handle_event(&mut self, event: DeviceListEvent)
        requires
            old(self).wf(),
        ensures
            final(self).wf(),
            match event {
                DeviceListEvent::PeerConnected { conn_id, direction } => {
                    &&& final(self).rows_view() == old(self).rows_view().insert(
                        conn_id,
                        DeviceRowView { device_id: None, name: None, direction, trusted: false },
                    )
                    &&& final(self).pending_view() == old(self).pending_view()
                },
                DeviceListEvent::PeerHello { conn_id, device_name } => {
                    &&& final(self).rows_view() == (if old(self).rows_view().contains_key(conn_id) {
                        old(self).rows_view().insert(
                            conn_id,
                            DeviceRowView {
                                name: Some(device_name@),
                                ..old(self).rows_view()[conn_id]
                            },
                        )
                    } else {
                        old(self).rows_view()
                    })
                    &&& final(self).pending_view() == old(self).pending_view()
                },
                DeviceListEvent::PairingRequested { conn_id, requester_name } => {
                    &&& final(self).rows_view() == old(self).rows_view()
                    &&& final(self).pending_view() == old(self).pending_view().insert(
                        conn_id,
                        requester_name@,
                    )
                },
                DeviceListEvent::Trusted { conn_id, device_id } => {
                    &&& final(self).rows_view() == (if old(self).rows_view().contains_key(conn_id) {
                        old(self).rows_view().insert(
                            conn_id,
                            DeviceRowView {
                                device_id: Some(device_id@),
                                trusted: true,
                                ..old(self).rows_view()[conn_id]
                            },
                        )
                    } else {
                        old(self).rows_view()
                    })
                    &&& final(self).pending_view() == old(self).pending_view().remove(conn_id)
                },
                DeviceListEvent::PairingRejected { conn_id } => {
                    &&& final(self).rows_view() == old(self).rows_view()
                    &&& final(self).pending_view() == old(self).pending_view().remove(conn_id)
                },
                DeviceListEvent::PeerDisconnected { conn_id } => {
                    &&& final(self).rows_view() == old(self).rows_view().remove(conn_id)
                    &&& final(self).pending_view() == old(self).pending_view().remove(conn_id)
                },
                DeviceListEvent::Other => {
                    &&& final(self).rows_view() == old(self).rows_view()
                    &&& final(self).pending_view() == old(self).pending_view()
                },
            },
    {
        match event {
            DeviceListEvent::PeerConnected { conn_id, direction } => {
                self.put_row(conn_id, DeviceRow { device_id: None, name: None, direction, trusted: false });
            },
            DeviceListEvent::PeerHello { conn_id, device_name } => {
                self.update_row(conn_id, None, Some(device_name), false);
                proof {
                    if old(self).rows_view().contains_key(conn_id) {
                        assert(final(self).rows_view()[conn_id] == DeviceRowView {
                            name: Some(device_name@),
                            ..old(self).rows_view()[conn_id]
                        });
                    }
                }
            },
            DeviceListEvent::PairingRequested { conn_id, requester_name } => {
                self.put_pending(conn_id, requester_name);
            },
            DeviceListEvent::Trusted { conn_id, device_id } => {
                self.update_row(conn_id, Some(device_id), None, true);
                self.take_pending(conn_id);
            },
            DeviceListEvent::PairingRejected { conn_id } => {
                self.take_pending(conn_id);
            },
            DeviceListEvent::PeerDisconnected { conn_id } => {
                self.drop_row(conn_id);
                self.take_pending(conn_id);
            },
            DeviceListEvent::Other => {},
        }
    }

    /// The rows, in connection order, each with its connection id.
    pub fn rows(&self) -> (rows: &[(ConnId, DeviceRow)])
        requires
            self.wf(),
        ensures
            forall|i: int, j: int| 0 <= i < j < rows@.len() ==> rows@[i].0 < rows@[j].0,
            forall|i: int|
                0 <= i < rows@.len() ==> self.rows_view().contains_key(#[trigger] rows@[i].0)
                    && self.rows_view()[rows@[i].0] == rows@[i].1@,
            forall|c: ConnId| #[trigger]
                self.rows_view().contains_key(c) ==> exists|i: int|
                    0 <= i < rows@.len() && #[trigger] rows@[i].0 == c,
    {
        self.rows.as_slice()
    }

    /// The pending pairing requests, each with its connection id.
    pub fn pending(&self) -> (pending: &[(ConnId, String)])
        requires
            self.wf(),
        ensures
            forall|i: int|
                0 <= i < pending@.len() ==> self.pending_view().contains_key(#[trigger] pending@[i].0)
                    && self.pending_view()[pending@[i].0] == pending@[i].1@,
            forall|c: ConnId| #[trigger]
                self.pending_view().contains_key(c) ==> exists|i: int|
                    0 <= i < pending@.len() && #[trigger] pending@[i].0 == c,
    {
        self.pending.as_slice()
    }
}

} // verus!
