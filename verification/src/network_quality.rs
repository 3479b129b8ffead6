//! Link quality from heartbeats: a window of the latest round-trip times
//! and a count of heartbeats that never arrived (gaps in their sequence
//! numbers). Averaging the round trips, and the mode suggested from the
//! average, are floating point and belong to the caller.

use vstd::prelude::*;

verus! {

/// The most round-trip samples kept.
pub const RTT_WINDOW: usize = 60;

/// The connection advice shown on the Network page.
#[derive(Debug, Clone, Copy, PartialEq, Eq, Structural)]
pub enum SuggestedMode {
    EthernetPreferred,
    WifiOk,
    Unstable,
}

/// `a - b`, or 0 if `b` is larger.
pub open spec fn saturating_sub(a: u64, b: u64) -> u64 {
    if a >= b {
        (a - b) as u64
    } else {
        0
    }
}

/// How many heartbeats were skipped between sequence `last` and
/// `sequence`.
pub open spec fn heartbeat_gap(last: u64, sequence: u64) -> u64 {
    saturating_sub(saturating_sub(sequence, last), 1)
}

/// The window after adding a sample: the oldest sample is dropped once
/// there are more than `RTT_WINDOW`.
pub open spec fn window_push(samples: Seq<u64>, sample: u64) -> Seq<u64> {
    if samples.push(sample).len() > RTT_WINDOW {
        samples.push(sample).drop_first()
    } else {
        samples.push(sample)
    }
}

/// Tracks heartbeat round trips and losses for one peer.
pub struct NetworkQualityMonitor {
    rtt_sample_bits: Vec<u64>,
    last_sequence_seen: Option<u64>,
    missed_heartbeats: u32,
}

impl NetworkQualityMonitor {
    /// The round-trip samples, oldest first, each the IEEE-754 bits of an
    /// `f64` millisecond value.
    pub closed spec fn samples(&self) -> Seq<u64> {
        self.rtt_sample_bits@
    }

    /// The sequence number of the latest heartbeat seen.
    pub closed spec fn last_sequence(&self) -> Option<u64> {
        self.last_sequence_seen
    }

    /// Heartbeats counted as missed so far.
    pub closed spec fn missed(&self) -> u32 {
        self.missed_heartbeats
    }

    /// The window never holds more than `RTT_WINDOW` samples.
    pub open spec fn wf(&self) -> bool {
        self.samples().len() <= RTT_WINDOW
    }

    /// No samples, no heartbeat seen.
    pub fn new() -> (monitor: NetworkQualityMonitor)
        ensures
            monitor.wf(),
            monitor.samples() == Seq::<u64>::empty(),
            monitor.last_sequence() is None,
            monitor.missed() == 0,
    {
        NetworkQualityMonitor { rtt_sample_bits: Vec::new(), last_sequence_seen: None, missed_heartbeats: 0 }
    }

    /// Records heartbeat `sequence`, with its round trip if measured. A
    /// jump in sequence numbers counts the skipped ones as missed (the
    /// count of one jump is taken modulo 2^32); a repeated or older number
    /// counts none.
    pub fn record_heartbeat(&mut self, sequence: u64, rtt_bits: Option<u64>)
        requires
            old(self).wf(),
            old(self).last_sequence() matches Some(last) ==> old(self).missed() + (heartbeat_gap(
                last,
                sequence,
            ) as u32) <= u32::MAX,
        ensures
            final(self).wf(),
            final(self).samples() == (match rtt_bits {
                Some(r) => window_push(old(self).samples(), r),
                None => old(self).samples(),
            }),
            final(self).missed() == (match old(self).last_sequence() {
                Some(last) => (old(self).missed() + (heartbeat_gap(last, sequence) as u32)) as u32,
                None => old(self).missed(),
            }),
            final(self).last_sequence() == Some(sequence),
    {
        if let Some(rtt) = rtt_bits {
            self.rtt_sample_bits.push(rtt);
            if self.rtt_sample_bits.len() > RTT_WINDOW {
                self.rtt_sample_bits.remove(0);
                assert(self.rtt_sample_bits@ =~= old(self).samples().push(rtt).drop_first());
            }
        }
        if let Some(last) = self.last_sequence_seen {
            let gap = sequence.saturating_sub(last).saturating_sub(1);
            self.missed_heartbeats = self.missed_heartbeats + gap as u32;
        }
        self.last_sequence_seen = Some(sequence);
    }

    /// The round-trip samples, oldest first.
    pub fn rtt_sample_bits(&self) -> (samples: &[u64])
        ensures
            samples@ == self.samples(),
    {
        self.rtt_sample_bits.as_slice()
    }

    /// The sequence number of the last heartbeat recorded.
    pub fn last_sequence_seen(&self) -> (last: Option<u64>)
        ensures
            last == self.last_sequence(),
    {
        self.last_sequence_seen
    }

    /// Heartbeats counted as missed.
    pub fn missed_heartbeats(&self) -> (missed: u32)
        ensures
            missed == self.missed(),
    {
        self.missed_heartbeats
    }
}

impl Default for NetworkQualityMonitor {
    /// No samples, no heartbeat seen, as `new`.
    fn default() -> (monitor: Self)
        ensures
            monitor.wf(),
            monitor.samples() == Seq::<u64>::empty(),
            monitor.last_sequence() is None,
            monitor.missed() == 0,
    {
        NetworkQualityMonitor::new()
    }
}

/// The round trips measured over a run of heartbeats, in order.
pub open spec fn measured(rtts: Seq<Option<u64>>) -> Seq<u64>
    decreases rtts.len(),
{
    if rtts.len() == 0 {
        Seq::empty()
    } else {
        let rest = measured(rtts.drop_last());
        match rtts.last() {
            Some(r) => rest.push(r),
            None => rest,
        }
    }
}

/// The window after a run of heartbeats from an empty one.
pub open spec fn window_run(rtts: Seq<Option<u64>>) -> Seq<u64>
    decreases rtts.len(),
{
    if rtts.len() == 0 {
        Seq::empty()
    } else {
        let rest = window_run(rtts.drop_last());
        match rtts.last() {
            Some(r) => window_push(rest, r),
            None => rest,
        }
    }
}

/// The last `RTT_WINDOW` items of `s` (all of them if there are fewer).
pub open spec fn latest(s: Seq<u64>) -> Seq<u64> {
    if s.len() <= RTT_WINDOW {
        s
    } else {
        s.subrange(s.len() - RTT_WINDOW, s.len() as int)
    }
}

/// Over any run of heartbeats, starting from a new monitor, the window
/// holds exactly the latest `RTT_WINDOW` round trips measured, oldest
/// first (all of them while there are fewer).
pub proof fn lemma_window_is_latest(rtts: Seq<Option<u64>>)
    ensures
        window_run(rtts) == latest(measured(rtts)),
    decreases rtts.len(),
{
    if rtts.len() > 0 {
        lemma_window_is_latest(rtts.drop_last());
        let m = measured(rtts.drop_last());
        if let Some(r) = rtts.last() {
            let w = latest(m);
            let p = m.push(r);
            if p.len() > RTT_WINDOW {
                assert(window_push(w, r) =~= latest(p)) by {
                    if m.len() > RTT_WINDOW {
                        assert(w.push(r).drop_first() =~= latest(p));
                    } else {
                        assert(w.push(r).drop_first() =~= latest(p));
                    }
                }
            } else {
                assert(window_push(w, r) =~= latest(p));
            }
        }
    }
}

/// A heartbeat numbered at or below the one after the previous adds no
/// missed heartbeat: repeats, reorders and the next in line count none.
pub proof fn lemma_no_gap_without_jump(last: u64, sequence: u64)
    requires
        sequence <= last + 1,
    ensures
        heartbeat_gap(last, sequence) == 0,
{
}

} // verus!
