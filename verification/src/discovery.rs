//! Which discovered peers to dial. mDNS keeps re-announcing every
//! service (this device's own included), each time possibly with another
//! of its addresses; dialing on every announcement would open a fresh
//! connection, and send a fresh `pairRequest`, each time. So each
//! advertised service name is dialed once per process, and forgotten
//! again only when the dial did not reach it. Browsing and dialing are the
//! caller's job.

use vstd::prelude::*;
use crate::text::text_eq;

verus! {

/// The mDNS service type Entanglo advertises and browses.
pub const SERVICE_TYPE: &'static str = "_entanglo._tcp.local.";

/// A resolved peer from the browse.
#[derive(Debug, Clone)]
pub struct DiscoveredPeer {
    pub device_name: String,
    pub host: String,
    pub port: u16,
}

/// The service names dialed so far.
pub struct DialTracker {
    dialed: Vec<String>,
}

impl DialTracker {
    /// The names dialed (or being dialed).
    pub closed spec fn dialed(&self) -> Seq<Seq<char>> {
        self.dialed@.map_values(|s: String| s@)
    }

    /// Whether `name` has been dialed.
    pub open spec fn has_dialed(&self, name: Seq<char>) -> bool {
        self.dialed().contains(name)
    }

    /// Each name is remembered once.
    pub open spec fn wf(&self) -> bool {
        self.dialed().no_duplicates()
    }

    /// Nothing dialed.
    pub fn new() -> (tracker: DialTracker)
        ensures
            tracker.wf(),
            forall|name: Seq<char>| !tracker.has_dialed(name),
    {
        let tracker = DialTracker { dialed: Vec::new() };
        assert(tracker.dialed() =~= Seq::<Seq<char>>::empty());
        tracker
    }

    fn position(&self, name: &str) -> (pos: Option<usize>)
        ensures
            match pos {
                Some(i) => i < self.dialed().len() && self.dialed()[i as int] == name@,
                None => !self.dialed().contains(name@),
            },
    {
        let mut i: usize = 0;
        while i < self.dialed.len()
            invariant
                0 <= i <= self.dialed@.len(),
                forall|j: int| 0 <= j < i ==> self.dialed()[j] != name@,
            decreases self.dialed.len() - i,
        {
            if text_eq(self.dialed[i].as_str(), name) {
                return Some(i);
            }
            i = i + 1;
        }
        None
    }

    /// Whether to dial the service `name` now: yes the first time it is
    /// seen, and it is then remembered as dialed.
    pub fn should_dial(&mut self, name: &str) -> (dial: bool)
        requires
            old(self).wf(),
        ensures
            final(self).wf(),
            dial == !old(self).has_dialed(name@),
            final(self).has_dialed(name@),
            forall|other: Seq<char>|
                other != name@ ==> (final(self).has_dialed(other) <==> old(self).has_dialed(other)),
    {
        match self.position(name) {
            Some(i) => false,
            None => {
                let ghost before = self.dialed();
                self.dialed.push(name.to_owned());
                let ghost after = self.dialed();
                assert(after =~= before.push(name@));
                assert(after[before.len() as int] == name@);
                assert forall|other: Seq<char>| other != name@ implies (after.contains(other) <==> before.contains(other)) by {
                    if after.contains(other) {
                        let j = choose|j: int| 0 <= j < after.len() && after[j] == other;
                        assert(before[j] == other);
                    }
                    if before.contains(other) {
                        let j = choose|j: int| 0 <= j < before.len() && before[j] == other;
                        assert(after[j] == other);
                    }
                }
                true
            },
        }
    }

    /// The dial of `name` did not reach the peer: allow a later
    /// announcement (maybe with a better address) to retry it.
    pub fn forget(&mut self, name: &str)
        requires
            old(self).wf(),
        ensures
            final(self).wf(),
            !final(self).has_dialed(name@),
            forall|other: Seq<char>|
                other != name@ ==> (final(self).has_dialed(other) <==> old(self).has_dialed(other)),
    {
        if let Some(i) = self.position(name) {
            let ghost before = self.dialed();
            self.dialed.remove(i);
            let ghost after = self.dialed();
            assert(after =~= before.remove(i as int));
            assert forall|j: int| 0 <= j < after.len() implies #[trigger] after[j] == (if j < i {
                before[j]
            } else {
                before[j + 1]
            }) by {}
            assert forall|x: Seq<char>| x != name@ implies (after.contains(x) <==> before.contains(x)) by {
                if after.contains(x) {
                    let j = choose|j: int| 0 <= j < after.len() && after[j] == x;
                    if j < i {
                        assert(before[j] == x);
                    } else {
                        assert(before[j + 1] == x);
                    }
                }
                if before.contains(x) {
                    let j = choose|j: int| 0 <= j < before.len() && before[j] == x;
                    assert(j != i);
                    if j < i {
                        assert(after[j] == x);
                    } else {
                        assert(after[j - 1] == x);
                    }
                }
            }
            assert(!after.contains(name@)) by {
                if after.contains(name@) {
                    let j = choose|j: int| 0 <= j < after.len() && after[j] == name@;
                    if j < i {
                        assert(before[j] == before[i as int]);
                    } else {
                        assert(before[j + 1] == before[i as int]);
                    }
                }
            }
        }
    }
}

/// One announcement handled by the dial loop: the names dialed before it,
/// and the outcome of its dial. The loop asks `should_dial`; if that says
/// yes it dials, and on a dial that did not reach the peer (or a host that
/// is no address) it calls `forget`. Per those two contracts, the names
/// dialed afterwards, and whether this announcement was dialed.
pub open spec fn dial_step(dialed: Set<Seq<char>>, name: Seq<char>, reached: bool) -> (
    Set<Seq<char>>,
    bool,
) {
    if dialed.contains(name) {
        (dialed, false)
    } else if reached {
        (dialed.insert(name), true)
    } else {
        (dialed, true)
    }
}

/// A run of announcements `names`, each with whether its dial (if made)
/// reached the peer: the names dialed at the end, and for each
/// announcement whether it was dialed.
pub open spec fn dial_run(names: Seq<Seq<char>>, reached: Seq<bool>) -> (Set<Seq<char>>, Seq<bool>)
    decreases names.len(),
{
    if names.len() == 0 {
        (Set::empty(), Seq::empty())
    } else {
        let (d, attempts) = dial_run(names.drop_last(), reached.subrange(0, names.len() - 1));
        let (d2, now) = dial_step(d, names.last(), reached[names.len() - 1]);
        (d2, attempts.push(now))
    }
}

/// Over a whole run from a fresh tracker: an announcement is dialed
/// exactly when no earlier announcement of the same name was dialed and
/// reached the peer. So each name is reached at most once, and a name is
/// dialed again only after every earlier dial of it failed.
pub proof fn lemma_dialed_until_reached(names: Seq<Seq<char>>, reached: Seq<bool>)
    requires
        names.len() == reached.len(),
    ensures
        dial_run(names, reached).1.len() == names.len(),
        forall|j: int|
            0 <= j < names.len() ==> (#[trigger] dial_run(names, reached).1[j] <==> !exists|i: int|
                0 <= i < j && names[i] == names[j] && dial_run(names, reached).1[i] && reached[i]),
        forall|n: Seq<char>|
            dial_run(names, reached).0.contains(n) <==> exists|i: int|
                0 <= i < names.len() && names[i] == n && dial_run(names, reached).1[i] && reached[i],
    decreases names.len(),
{
    if names.len() > 0 {
        let m = names.len() - 1;
        let pn = names.drop_last();
        let pr = reached.subrange(0, m as int);
        lemma_dialed_until_reached(pn, pr);
        let (d, attempts) = dial_run(pn, pr);
        let (d2, now) = dial_step(d, names.last(), reached[m as int]);
        let all = attempts.push(now);
        assert(dial_run(names, reached) == (d2, all));
        assert forall|i: int| 0 <= i < m implies names[i] == pn[i] && reached[i] == pr[i] && all[i]
            == attempts[i] by {}
        assert forall|j: int| 0 <= j < names.len() implies (#[trigger] all[j] <==> !exists|i: int|
            0 <= i < j && names[i] == names[j] && all[i] && reached[i]) by {
            if j < m {
                assert(attempts[j] <==> !exists|i: int|
                    0 <= i < j && pn[i] == pn[j] && attempts[i] && pr[i]);
            } else {
                if d.contains(names[j]) {
                    let i = choose|i: int| 0 <= i < m && pn[i] == names[j] && attempts[i] && pr[i];
                    assert(names[i] == names[j] && all[i] && reached[i]);
                }
            }
        }
        assert forall|n: Seq<char>| d2.contains(n) <==> exists|i: int|
            0 <= i < names.len() && names[i] == n && all[i] && reached[i] by {
            if d2.contains(n) {
                if d.contains(n) {
                    let i = choose|i: int| 0 <= i < m && pn[i] == n && attempts[i] && pr[i];
                    assert(names[i] == n && all[i] && reached[i]);
                } else {
                    assert(names[m as int] == n && all[m as int] && reached[m as int]);
                }
            }
            if exists|i: int| 0 <= i < names.len() && names[i] == n && all[i] && reached[i] {
                let i = choose|i: int| 0 <= i < names.len() && names[i] == n && all[i] && reached[i];
                if i < m {
                    assert(pn[i] == n && attempts[i] && pr[i]);
                }
            }
        }
    }
}

/// `dial_step` is what the dial loop does to a tracker: `should_dial`
/// marks the name dialed and leaves the others (its contract), and a
/// `forget` after a dial that did not reach the peer unmarks it again and
/// leaves the others (its contract). Here `before`, `after_dial` and
/// `after` are the names the tracker has dialed before, after
/// `should_dial`, and at the end.
pub proof fn lemma_dial_step_is_tracker_step(
    before: Set<Seq<char>>,
    name: Seq<char>,
    reached: bool,
    after_dial: Set<Seq<char>>,
    after: Set<Seq<char>>,
)
    requires
        after_dial.contains(name),
        forall|other: Seq<char>| other != name ==> (after_dial.contains(other) <==> before.contains(other)),
        (reached || before.contains(name)) ==> after == after_dial,
        !reached && !before.contains(name) ==> !after.contains(name) && forall|other: Seq<char>|
            other != name ==> (after.contains(other) <==> after_dial.contains(other)),
    ensures
        after == dial_step(before, name, reached).0,
{
    if before.contains(name) {
        assert(after =~= before);
    } else if reached {
        assert(after =~= before.insert(name));
    } else {
        assert(after =~= before);
    }
}

} // verus!
