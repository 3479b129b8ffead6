//! The devices this one trusts, keyed by device id. Loading and saving
//! (Secret Service, or an encrypted file) are the caller's job.

use vstd::prelude::*;
use crate::text::text_eq;

verus! {

/// A trusted peer.
pub struct TrustedDevice {
    pub device_id: String,
    pub friendly_name: String,
    /// When it was trusted: the IEEE-754 bits of the `f64` Unix time in
    /// seconds.
    pub trusted_since_unix_bits: u64,
}

/// The abstract contents of a trusted device.
pub struct TrustedDeviceView {
    pub device_id: Seq<char>,
    pub friendly_name: Seq<char>,
    pub trusted_since_unix_bits: u64,
}

impl View for TrustedDevice {
    type V = TrustedDeviceView;

    open spec fn view(&self) -> TrustedDeviceView {
        TrustedDeviceView {
            device_id: self.device_id@,
            friendly_name: self.friendly_name@,
            trusted_since_unix_bits: self.trusted_since_unix_bits,
        }
    }
}

/// The trusted devices, at most one per device id.
pub struct TrustStore {
    devices: Vec<TrustedDevice>,
    contents: Ghost<Map<Seq<char>, TrustedDeviceView>>,
}

impl TrustStore {
    /// At most one record per device id, and the records are exactly the
    /// contents.
    pub closed spec fn wf(&self) -> bool {
        &&& forall|i: int, j: int|
            0 <= i < j < self.devices@.len() ==> self.devices@[i].device_id@
                != self.devices@[j].device_id@
        &&& forall|i: int|
            0 <= i < self.devices@.len() ==> self.contents@.contains_key(
                #[trigger] self.devices@[i].device_id@,
            ) && self.contents@[self.devices@[i].device_id@] == self.devices@[i]@
        &&& forall|k: Seq<char>| #[trigger]
            self.contents@.contains_key(k) ==> exists|i: int|
                0 <= i < self.devices@.len() && #[trigger] self.devices@[i].device_id@ == k
    }

    /// The trusted devices by device id.
    pub closed spec fn view(&self) -> Map<Seq<char>, TrustedDeviceView> {
        self.contents@
    }

    /// Trusts nobody.
    pub fn new() -> (store: TrustStore)
        ensures
            store.wf(),
            store.view() == Map::<Seq<char>, TrustedDeviceView>::empty(),
    {
        TrustStore { devices: Vec::new(), contents: Ghost(Map::empty()) }
    }

    /// The position of `device_id` in the list, if present.
    fn position(&self, device_id: &str) -> (pos: Option<usize>)
        ensures
            match pos {
                Some(i) => i < self.devices@.len() && self.devices@[i as int].device_id@
                    == device_id@,
                None => forall|i: int|
                    0 <= i < self.devices@.len() ==> self.devices@[i].device_id@ != device_id@,
            },
    {
        let mut i: usize = 0;
        while i < self.devices.len()
            invariant
                0 <= i <= self.devices@.len(),
                forall|j: int| 0 <= j < i ==> self.devices@[j].device_id@ != device_id@,
            decreases self.devices.len() - i,
        {
            if text_eq(self.devices[i].device_id.as_str(), device_id) {
                return Some(i);
            }
            i = i + 1;
        }
        None
    }

    /// Whether `device_id` is trusted.
    pub fn is_trusted(&self, device_id: &str) -> (trusted: bool)
        requires
            self.wf(),
        ensures
            trusted == self.view().contains_key(device_id@),
    {
        let pos = self.position(device_id);
        proof {
            if pos is None && self.contents@.contains_key(device_id@) {
                let i = choose|i: int|
                    0 <= i < self.devices@.len() && #[trigger] self.devices@[i].device_id@
                        == device_id@;
            }
        }
        pos.is_some()
    }

    /// Trusts `device`, replacing any earlier record of its device id.
    pub fn trust(&mut self, device: TrustedDevice)
        requires
            old(self).wf(),
        ensures
            final(self).wf(),
            final(self).view() == old(self).view().insert(device.device_id@, device@),
    {
        let ghost key = device.device_id@;
        let ghost dv = device@;
        let ghost new_contents = self.contents@.insert(key, dv);
        match self.position(device.device_id.as_str()) {
            Some(i) => {
                self.devices.set(i, device);
                self.contents = Ghost(new_contents);
                let ghost devices = self.devices@;
                proof {
                    assert forall|k: Seq<char>| #[trigger]
                        new_contents.contains_key(k) implies exists|j: int|
                        0 <= j < devices.len() && #[trigger] devices[j].device_id@ == k by {
                        if k == key {
                            assert(devices[i as int].device_id@ == k);
                        } else {
                            let j = choose|j: int|
                                0 <= j < old(self).devices@.len() && #[trigger] old(
                                    self,
                                ).devices@[j].device_id@ == k;
                            assert(devices[j].device_id@ == k);
                        }
                    }
                }
            },
            None => {
                self.devices.push(device);
                self.contents = Ghost(new_contents);
                let ghost devices = self.devices@;
                proof {
                    let n = old(self).devices@.len();
                    assert(devices[n as int].device_id@ == key);
                    assert forall|k: Seq<char>| #[trigger]
                        new_contents.contains_key(k) implies exists|j: int|
                        0 <= j < devices.len() && #[trigger] devices[j].device_id@ == k by {
                        if k == key {
                            assert(devices[n as int].device_id@ == k);
                        } else {
                            let j = choose|j: int|
                                0 <= j < old(self).devices@.len() && #[trigger] old(
                                    self,
                                ).devices@[j].device_id@ == k;
                            assert(devices[j].device_id@ == k);
                        }
                    }
                }
            },
        }
    }

    /// Stops trusting `device_id`; other devices stay trusted.
    pub fn revoke(&mut self, device_id: &str)
        requires
            old(self).wf(),
        ensures
            final(self).wf(),
            final(self).view() == old(self).view().remove(device_id@),
    {
        let ghost new_contents = self.contents@.remove(device_id@);
        match self.position(device_id) {
            Some(i) => {
                self.devices.remove(i);
                self.contents = Ghost(new_contents);
                let ghost devices = self.devices@;
                proof {
                    let old_devices = old(self).devices@;
                    assert forall|j: int| 0 <= j < devices.len() implies #[trigger] devices[j]
                        == (if j < i {
                        old_devices[j]
                    } else {
                        old_devices[j + 1]
                    }) by {}
                    assert forall|k: Seq<char>| #[trigger]
                        new_contents.contains_key(k) implies exists|j: int|
                        0 <= j < devices.len() && #[trigger] devices[j].device_id@ == k by {
                        let j = choose|j: int|
                            0 <= j < old_devices.len() && #[trigger] old_devices[j].device_id@
                                == k;
                        if j < i {
                            assert(devices[j].device_id@ == k);
                        } else {
                            assert(j != i);
                            assert(devices[j - 1].device_id@ == k);
                        }
                    }
                }
            },
            None => {
                proof {
                    assert(!self.contents@.contains_key(device_id@)) by {
                        if self.contents@.contains_key(device_id@) {
                            let j = choose|j: int|
                                0 <= j < self.devices@.len() && #[trigger] self.devices@[j].device_id@
                                    == device_id@;
                        }
                    }
                    assert(new_contents =~= self.contents@);
                }
            },
        }
    }

    /// Every trusted device, once each, in no promised order.
    pub fn trusted_devices(&self) -> (devices: &[TrustedDevice])
        requires
            self.wf(),
        ensures
            forall|i: int|
                0 <= i < devices@.len() ==> self.view().contains_key(#[trigger] devices@[i].device_id@)
                    && self.view()[devices@[i].device_id@] == devices@[i]@,
            forall|k: Seq<char>| #[trigger]
                self.view().contains_key(k) ==> exists|i: int|
                    0 <= i < devices@.len() && #[trigger] devices@[i].device_id@ == k,
            forall|i: int, j: int|
                0 <= i < j < devices@.len() ==> devices@[i].device_id@ != devices@[j].device_id@,
    {
        self.devices.as_slice()
    }
}

} // verus!
