//! Per-device bandwidth and latency counters.

use vstd::prelude::*;
use crate::device::Timestamp;
use crate::strmap::StrMap;

verus! {

/// Per-device bandwidth tracking.
#[derive(Clone, Debug)]
pub struct DeviceBandwidth {
    pub bus_id: String,
    pub bytes_sent: u64,
    pub bytes_received: u64,
    pub last_updated: Timestamp,
}

/// Per-device latency measurement.
#[derive(Clone, Debug)]
pub struct DeviceLatency {
    pub bus_id: String,
    /// Last measured round-trip time in microseconds
    pub rtt_us: u64,
    /// Average round-trip time in microseconds
    pub avg_rtt_us: u64,
    /// Number of samples taken
    pub samples: u64,
    /// Sum of all samples taken, in microseconds
    pub total_rtt_us: u128,
    pub last_measured: Timestamp,
}

/// Counted bytes of a device as plain values.
pub struct BandwidthView {
    pub bytes_sent: nat,
    pub bytes_received: nat,
    pub last_updated: Timestamp,
}

/// Latency samples of a device as plain values.
pub struct LatencyView {
    pub rtt_us: nat,
    pub avg_rtt_us: nat,
    pub samples: nat,
    pub total_rtt_us: nat,
    pub last_measured: Timestamp,
}

/// The counters after `sent` and `received` more bytes at `now`.
pub open spec fn bandwidth_after(old: Option<BandwidthView>, sent: nat, received: nat, now: Timestamp) -> BandwidthView {
    match old {
        Some(b) => BandwidthView {
            bytes_sent: b.bytes_sent + sent,
            bytes_received: b.bytes_received + received,
            last_updated: now,
        },
        None => BandwidthView { bytes_sent: sent, bytes_received: received, last_updated: now },
    }
}

/// The latency record after a sample of `rtt` microseconds at `now`: the
/// sample is the last one, it joins the sum, and the average is the sum
/// over the count (rounded down).
pub open spec fn latency_after(old: Option<LatencyView>, rtt: nat, now: Timestamp) -> LatencyView {
    match old {
        Some(l) => LatencyView {
            rtt_us: rtt,
            avg_rtt_us: (l.total_rtt_us + rtt) / (l.samples + 1),
            samples: l.samples + 1,
            total_rtt_us: l.total_rtt_us + rtt,
            last_measured: now,
        },
        None => LatencyView { rtt_us: rtt, avg_rtt_us: rtt, samples: 1, total_rtt_us: rtt, last_measured: now },
    }
}

/// The largest `u64`.
pub open spec fn max_u64() -> nat {
    0xFFFF_FFFF_FFFF_FFFFnat
}

/// Whether a latency record is a mean of its samples: at least one, no
/// sample above the largest `u64`, and the average their sum over their
/// count.
pub open spec fn latency_consistent(l: LatencyView) -> bool {
    &&& l.samples >= 1
    &&& l.total_rtt_us <= l.samples * max_u64()
    &&& l.avg_rtt_us == l.total_rtt_us / l.samples
}

/// The sum of a list of samples.
pub open spec fn sample_sum(rs: Seq<nat>) -> nat
    decreases rs.len(),
{
    if rs.len() == 0 {
        0
    } else {
        sample_sum(rs.drop_last()) + rs.last()
    }
}

/// The record after samples `rs` taken at times `ts`, from none.
pub open spec fn latency_of_samples(rs: Seq<nat>, ts: Seq<Timestamp>) -> Option<LatencyView>
    decreases rs.len(),
{
    if rs.len() == 0 {
        None
    } else {
        Some(latency_after(latency_of_samples(rs.drop_last(), ts.drop_last()), rs.last(), ts.last()))
    }
}

impl View for DeviceBandwidth {
    type V = BandwidthView;

    open spec fn view(&self) -> BandwidthView {
        BandwidthView {
            bytes_sent: self.bytes_sent as nat,
            bytes_received: self.bytes_received as nat,
            last_updated: self.last_updated,
        }
    }
}

impl View for DeviceLatency {
    type V = LatencyView;

    open spec fn view(&self) -> LatencyView {
        LatencyView {
            rtt_us: self.rtt_us as nat,
            avg_rtt_us: self.avg_rtt_us as nat,
            samples: self.samples as nat,
            total_rtt_us: self.total_rtt_us as nat,
            last_measured: self.last_measured,
        }
    }
}

/// Whether every record is filed under its own bus ID.
pub open spec fn keyed_bandwidth(m: Map<Seq<char>, DeviceBandwidth>) -> bool {
    forall|k: Seq<char>| #[trigger] m.contains_key(k) ==> m[k].bus_id@ == k
}

pub open spec fn keyed_latency(m: Map<Seq<char>, DeviceLatency>) -> bool {
    forall|k: Seq<char>| #[trigger] m.contains_key(k) ==> m[k].bus_id@ == k && latency_consistent(m[k]@)
}

/// The counters of a table, as plain values.
pub open spec fn bandwidth_view(m: Map<Seq<char>, DeviceBandwidth>) -> Map<Seq<char>, BandwidthView> {
    m.map_values(|b: DeviceBandwidth| b@)
}

pub open spec fn latency_view(m: Map<Seq<char>, DeviceLatency>) -> Map<Seq<char>, LatencyView> {
    m.map_values(|l: DeviceLatency| l@)
}

fn copy_bandwidth(b: &DeviceBandwidth) -> (r: DeviceBandwidth)
    ensures
        r == *b,
{
    DeviceBandwidth {
        bus_id: b.bus_id.clone(),
        bytes_sent: b.bytes_sent,
        bytes_received: b.bytes_received,
        last_updated: b.last_updated,
    }
}

fn copy_latency(l: &DeviceLatency) -> (r: DeviceLatency)
    ensures
        r == *l,
{
    DeviceLatency {
        bus_id: l.bus_id.clone(),
        rtt_us: l.rtt_us,
        avg_rtt_us: l.avg_rtt_us,
        samples: l.samples,
        total_rtt_us: l.total_rtt_us,
        last_measured: l.last_measured,
    }
}

/// Bandwidth counters of all devices.
pub struct BandwidthTracker {
    devices: StrMap<DeviceBandwidth>,
}

impl View for BandwidthTracker {
    type V = Map<Seq<char>, BandwidthView>;

    closed spec fn view(&self) -> Map<Seq<char>, BandwidthView> {
        bandwidth_view(self.devices@)
    }
}

impl BandwidthTracker {
    /// Whether every record is filed under its own bus ID.
    pub closed spec fn wf(&self) -> bool {
        keyed_bandwidth(self.devices@)
    }

    /// No counters yet.
    pub fn new() -> (t: Self)
        ensures
            t@ == Map::<Seq<char>, BandwidthView>::empty(),
            t.wf(),
    {
        let t = BandwidthTracker { devices: StrMap::new() };
        assert(bandwidth_view(t.devices@) =~= Map::<Seq<char>, BandwidthView>::empty());
        t
    }

    /// Record bytes transferred for a device, at the time `now`.
    pub fn record_at(&mut self, bus_id: &str, sent: u64, received: u64, now: Timestamp)
        requires
            old(self).wf(),
            old(self)@.contains_key(bus_id@) ==> old(self)@[bus_id@].bytes_sent + sent <= u64::MAX
                && old(self)@[bus_id@].bytes_received + received <= u64::MAX,
        ensures
            final(self).wf(),
            final(self)@ == old(self)@.insert(
                bus_id@,
                bandwidth_after(
                    if old(self)@.contains_key(bus_id@) {
                        Some(old(self)@[bus_id@])
                    } else {
                        None
                    },
                    sent as nat,
                    received as nat,
                    now,
                ),
            ),
    {
        let entry = match self.devices.get(bus_id) {
            Some(b) => DeviceBandwidth {
                bus_id: b.bus_id.clone(),
                bytes_sent: b.bytes_sent + sent,
                bytes_received: b.bytes_received + received,
                last_updated: now,
            },
            None => DeviceBandwidth {
                bus_id: String::from_str(bus_id),
                bytes_sent: sent,
                bytes_received: received,
                last_updated: now,
            },
        };
        let ghost e = entry;
        self.devices.insert(String::from_str(bus_id), entry);
        proof {
            assert(bandwidth_view(self.devices@) =~= bandwidth_view(old(self).devices@).insert(
                bus_id@,
                e@,
            ));
        }
    }

    /// Record bytes transferred for a device now.
    pub fn record(&mut self, bus_id: &str, sent: u64, received: u64)
        requires
            old(self).wf(),
            old(self)@.contains_key(bus_id@) ==> old(self)@[bus_id@].bytes_sent + sent <= u64::MAX
                && old(self)@[bus_id@].bytes_received + received <= u64::MAX,
        ensures
            final(self).wf(),
            final(self)@ == old(self)@.insert(
                bus_id@,
                bandwidth_after(
                    if old(self)@.contains_key(bus_id@) {
                        Some(old(self)@[bus_id@])
                    } else {
                        None
                    },
                    sent as nat,
                    received as nat,
                    final(self)@[bus_id@].last_updated,
                ),
            ),
    {
        let now = Timestamp::now();
        self.record_at(bus_id, sent, received, now);
    }

    /// Get bandwidth stats for all devices.
    pub fn all_stats(&self) -> (r: Vec<DeviceBandwidth>)
        ensures
            r@.len() == self@.len(),
            forall|i: int|
                0 <= i < r@.len() ==> self@.contains_key(#[trigger] r@[i].bus_id@) && self@[r@[i].bus_id@]
                    == r@[i]@,
            forall|k: Seq<char>| #[trigger] self@.contains_key(k) ==> exists|i: int| 0 <= i < r@.len() && r@[i].bus_id@ == k,
    {
        let n = self.devices.entry_count();
        let mut r: Vec<DeviceBandwidth> = Vec::new();
        let mut i: usize = 0;
        while i < n
            invariant
                n == self.devices.entry_seq().len(),
                crate::strmap::keys_unique(self.devices.entry_seq()),
                self.devices@ == crate::strmap::entries_map(self.devices.entry_seq()),
                self.devices@.len() == n,
                self@ == bandwidth_view(self.devices@),
                i <= n,
                r@.len() == i,
                forall|j: int|
                    0 <= j < i ==> self@.contains_key(#[trigger] r@[j].bus_id@) && self@[r@[j].bus_id@]
                        == r@[j]@,
                forall|j: int| 0 <= j < i ==> #[trigger] r@[j].bus_id@ == self.devices.entry_seq()[j].0@,
            decreases n - i,
        {
            let (k, b) = self.devices.entry_at(i);
            proof {
                crate::strmap::lemma_entries_map(self.devices.entry_seq());
            }
            let mut c = copy_bandwidth(b);
            c.bus_id = k.clone();
            proof {
                assert(self.devices@.contains_key(k@));
                assert(self.devices@[k@] == *b);
            }
            r.push(c);
            i = i + 1;
        }
        proof {
            assert(self@.len() == self.devices@.len()) by {
                assert(self@.dom() =~= self.devices@.dom());
            }
            let s = self.devices.entry_seq();
            crate::strmap::lemma_entries_map(s);
            assert forall|k: Seq<char>| #[trigger] self@.contains_key(k) implies exists|j: int| 0 <= j < r@.len() && r@[j].bus_id@ == k by {
                assert(self.devices@.contains_key(k));
                let j = choose|j: int| 0 <= j < s.len() && s[j].0@ == k;
                assert(r@[j].bus_id@ == k);
            }
        }
        r
    }

    /// Get bandwidth stats for a specific device.
    pub fn device_stats(&self, bus_id: &str) -> (r: Option<DeviceBandwidth>)
        requires
            self.wf(),
        ensures
            match r {
                Some(b) => self@.contains_key(bus_id@) && self@[bus_id@] == b@ && b.bus_id@ == bus_id@,
                None => !self@.contains_key(bus_id@),
            },
    {
        match self.devices.get(bus_id) {
            Some(b) => Some(copy_bandwidth(b)),
            None => None,
        }
    }

    /// Reset counters for a device (e.g., when detached).
    pub fn reset(&mut self, bus_id: &str)
        requires
            old(self).wf(),
        ensures
            final(self).wf(),
            final(self)@ == old(self)@.remove(bus_id@),
    {
        self.devices.remove(bus_id);
        proof {
            assert(bandwidth_view(self.devices@) =~= bandwidth_view(old(self).devices@).remove(bus_id@));
        }
    }
}

/// Latency records of all devices.
pub struct LatencyTracker {
    devices: StrMap<DeviceLatency>,
}

impl View for LatencyTracker {
    type V = Map<Seq<char>, LatencyView>;

    closed spec fn view(&self) -> Map<Seq<char>, LatencyView> {
        latency_view(self.devices@)
    }
}

impl LatencyTracker {
    /// Whether every record is filed under its own bus ID.
    pub closed spec fn wf(&self) -> bool {
        keyed_latency(self.devices@)
    }

    /// No measurements yet.
    pub fn new() -> (t: Self)
        ensures
            t@ == Map::<Seq<char>, LatencyView>::empty(),
            t.wf(),
    {
        let t = LatencyTracker { devices: StrMap::new() };
        assert(latency_view(t.devices@) =~= Map::<Seq<char>, LatencyView>::empty());
        t
    }

    /// Record a latency measurement for a device, at the time `now`.
    pub fn record_at(&mut self, bus_id: &str, rtt_us: u64, now: Timestamp)
        requires
            old(self).wf(),
            old(self)@.contains_key(bus_id@) ==> old(self)@[bus_id@].samples + 1 <= u64::MAX,
        ensures
            final(self).wf(),
            final(self)@ == old(self)@.insert(
                bus_id@,
                latency_after(
                    if old(self)@.contains_key(bus_id@) {
                        Some(old(self)@[bus_id@])
                    } else {
                        None
                    },
                    rtt_us as nat,
                    now,
                ),
            ),
    {
        let entry = match self.devices.get(bus_id) {
            Some(l) => {
                proof {
                    assert(self.devices@.contains_key(bus_id@));
                    lemma_mean_step(l.total_rtt_us as nat, l.samples as nat, rtt_us as nat);
                }
                let samples = l.samples + 1;
                let total = l.total_rtt_us + rtt_us as u128;
                let avg = total / (samples as u128);
                DeviceLatency {
                    bus_id: l.bus_id.clone(),
                    rtt_us,
                    avg_rtt_us: avg as u64,
                    samples,
                    total_rtt_us: total,
                    last_measured: now,
                }
            },
            None => DeviceLatency {
                bus_id: String::from_str(bus_id),
                rtt_us,
                avg_rtt_us: rtt_us,
                samples: 1,
                total_rtt_us: rtt_us as u128,
                last_measured: now,
            },
        };
        let ghost e = entry;
        self.devices.insert(String::from_str(bus_id), entry);
        proof {
            assert(latency_view(self.devices@) =~= latency_view(old(self).devices@).insert(bus_id@, e@));
        }
    }

    /// Record a latency measurement for a device now.
    pub fn record(&mut self, bus_id: &str, rtt_us: u64)
        requires
            old(self).wf(),
            old(self)@.contains_key(bus_id@) ==> old(self)@[bus_id@].samples + 1 <= u64::MAX,
        ensures
            final(self).wf(),
            final(self)@ == old(self)@.insert(
                bus_id@,
                latency_after(
                    if old(self)@.contains_key(bus_id@) {
                        Some(old(self)@[bus_id@])
                    } else {
                        None
                    },
                    rtt_us as nat,
                    final(self)@[bus_id@].last_measured,
                ),
            ),
    {
        let now = Timestamp::now();
        self.record_at(bus_id, rtt_us, now);
    }

    /// Get latency stats for all devices.
    pub fn all_stats(&self) -> (r: Vec<DeviceLatency>)
        ensures
            r@.len() == self@.len(),
            forall|i: int|
                0 <= i < r@.len() ==> self@.contains_key(#[trigger] r@[i].bus_id@) && self@[r@[i].bus_id@]
                    == r@[i]@,
            forall|k: Seq<char>| #[trigger] self@.contains_key(k) ==> exists|i: int| 0 <= i < r@.len() && r@[i].bus_id@ == k,
    {
        let n = self.devices.entry_count();
        let mut r: Vec<DeviceLatency> = Vec::new();
        let mut i: usize = 0;
        while i < n
            invariant
                n == self.devices.entry_seq().len(),
                crate::strmap::keys_unique(self.devices.entry_seq()),
                self.devices@ == crate::strmap::entries_map(self.devices.entry_seq()),
                self.devices@.len() == n,
                self@ == latency_view(self.devices@),
                i <= n,
                r@.len() == i,
                forall|j: int|
                    0 <= j < i ==> self@.contains_key(#[trigger] r@[j].bus_id@) && self@[r@[j].bus_id@]
                        == r@[j]@,
                forall|j: int| 0 <= j < i ==> #[trigger] r@[j].bus_id@ == self.devices.entry_seq()[j].0@,
            decreases n - i,
        {
            let (k, l) = self.devices.entry_at(i);
            proof {
                crate::strmap::lemma_entries_map(self.devices.entry_seq());
            }
            let mut c = copy_latency(l);
            c.bus_id = k.clone();
            proof {
                assert(self.devices@.contains_key(k@));
                assert(self.devices@[k@] == *l);
            }
            r.push(c);
            i = i + 1;
        }
        proof {
            assert(self@.len() == self.devices@.len()) by {
                assert(self@.dom() =~= self.devices@.dom());
            }
            let s = self.devices.entry_seq();
            crate::strmap::lemma_entries_map(s);
            assert forall|k: Seq<char>| #[trigger] self@.contains_key(k) implies exists|j: int| 0 <= j < r@.len() && r@[j].bus_id@ == k by {
                assert(self.devices@.contains_key(k));
                let j = choose|j: int| 0 <= j < s.len() && s[j].0@ == k;
                assert(r@[j].bus_id@ == k);
            }
        }
        r
    }

    /// Get latency stats for a specific device.
    pub fn device_stats(&self, bus_id: &str) -> (r: Option<DeviceLatency>)
        requires
            self.wf(),
        ensures
            match r {
                Some(l) => self@.contains_key(bus_id@) && self@[bus_id@] == l@ && l.bus_id@ == bus_id@,
                None => !self@.contains_key(bus_id@),
            },
    {
        match self.devices.get(bus_id) {
            Some(l) => Some(copy_latency(l)),
            None => None,
        }
    }

    /// Reset measurements for a device.
    pub fn reset(&mut self, bus_id: &str)
        requires
            old(self).wf(),
        ensures
            final(self).wf(),
            final(self)@ == old(self)@.remove(bus_id@),
    {
        self.devices.remove(bus_id);
        proof {
            assert(latency_view(self.devices@) =~= latency_view(old(self).devices@).remove(bus_id@));
        }
    }
}

proof fn lemma_mean_step(total: nat, samples: nat, rtt: nat)
    requires
        samples >= 1,
        total <= samples * max_u64(),
        rtt <= max_u64(),
        samples + 1 <= max_u64(),
    ensures
        total + rtt <= (samples + 1) * max_u64(),
        (samples + 1) * max_u64() <= max_u64() * max_u64(),
        (total + rtt) / (samples + 1) <= max_u64(),
{
    assert((samples + 1) * max_u64() <= max_u64() * max_u64()) by (nonlinear_arith)
        requires
            samples + 1 <= max_u64(),
    ;
    let n = samples + 1;
    let t = total + rtt;
    assert(t / n <= max_u64()) by (nonlinear_arith)
        requires
            n >= 1,
            t <= n * max_u64(),
    ;
}

proof fn lemma_sum_bounds(rs: Seq<nat>, lo: nat, hi: nat)
    ensures
        (forall|i: int| 0 <= i < rs.len() ==> lo <= #[trigger] rs[i]) ==> lo * rs.len() <= sample_sum(rs),
        (forall|i: int| 0 <= i < rs.len() ==> #[trigger] rs[i] <= hi) ==> sample_sum(rs) <= hi * rs.len(),
    decreases rs.len(),
{
    if rs.len() > 0 {
        let p = rs.drop_last();
        lemma_sum_bounds(p, lo, hi);
        if forall|i: int| 0 <= i < rs.len() ==> lo <= #[trigger] rs[i] {
            assert forall|i: int| 0 <= i < p.len() implies lo <= #[trigger] p[i] by {
                assert(p[i] == rs[i]);
            }
            assert(lo <= rs[rs.len() - 1]);
            assert(lo * rs.len() == lo * p.len() + lo) by (nonlinear_arith)
                requires
                    rs.len() == p.len() + 1,
            ;
        }
        if forall|i: int| 0 <= i < rs.len() ==> #[trigger] rs[i] <= hi {
            assert forall|i: int| 0 <= i < p.len() implies #[trigger] p[i] <= hi by {
                assert(p[i] == rs[i]);
            }
            assert(rs[rs.len() - 1] <= hi);
            assert(hi * rs.len() == hi * p.len() + hi) by (nonlinear_arith)
                requires
                    rs.len() == p.len() + 1,
            ;
        }
    }
}

proof fn lemma_samples_fold(rs: Seq<nat>, ts: Seq<Timestamp>)
    requires
        rs.len() > 0,
    ensures
        latency_of_samples(rs, ts) is Some,
        latency_of_samples(rs, ts)->0.samples == rs.len(),
        latency_of_samples(rs, ts)->0.total_rtt_us == sample_sum(rs),
        latency_of_samples(rs, ts)->0.rtt_us == rs.last(),
        latency_of_samples(rs, ts)->0.avg_rtt_us == sample_sum(rs) / (rs.len() as nat),
    decreases rs.len(),
{
    let prev = latency_of_samples(rs.drop_last(), ts.drop_last());
    assert(latency_of_samples(rs, ts) == Some(latency_after(prev, rs.last(), ts.last())));
    assert(sample_sum(rs) == sample_sum(rs.drop_last()) + rs.last());
    if rs.len() > 1 {
        lemma_samples_fold(rs.drop_last(), ts.drop_last());
    } else {
        assert(rs.drop_last().len() == 0);
        assert(prev is None);
        assert(sample_sum(rs.drop_last()) == 0);
    }
}

/// Over any series of samples of a device (since it was first recorded or
/// reset), its record counts them, holds the last one, and its average is
/// the mean of them all (rounded down), which lies between the least and
/// the greatest sample.
pub proof fn law_average_is_mean_of_samples(rs: Seq<nat>, ts: Seq<Timestamp>, lo: nat, hi: nat)
    requires
        rs.len() > 0,
    ensures
        latency_of_samples(rs, ts) matches Some(l) && l.samples == rs.len() && l.rtt_us == rs.last()
            && l.total_rtt_us == sample_sum(rs) && l.avg_rtt_us == sample_sum(rs) / (rs.len() as nat),
        (forall|i: int| 0 <= i < rs.len() ==> lo <= #[trigger] rs[i]) ==> lo
            <= latency_of_samples(rs, ts)->0.avg_rtt_us,
        (forall|i: int| 0 <= i < rs.len() ==> #[trigger] rs[i] <= hi)
            ==> latency_of_samples(rs, ts)->0.avg_rtt_us <= hi,
{
    lemma_samples_fold(rs, ts);
    lemma_sum_bounds(rs, lo, hi);
    let n = rs.len() as nat;
    let t = sample_sum(rs);
    assert(lo * n <= t ==> lo <= t / n) by (nonlinear_arith)
        requires
            n >= 1,
    ;
    assert(t <= hi * n ==> t / n <= hi) by (nonlinear_arith)
        requires
            n >= 1,
    ;
}

/// Every record a tracker holds is the mean of its samples: at least one
/// sample, and the average is their sum over their count.
pub proof fn law_tracked_average_is_mean(t: &LatencyTracker, bus_id: Seq<char>)
    requires
        t.wf(),
        t@.contains_key(bus_id),
    ensures
        t@[bus_id].samples >= 1,
        t@[bus_id].avg_rtt_us == t@[bus_id].total_rtt_us / t@[bus_id].samples,
{
    assert(t.devices@.contains_key(bus_id));
}

/// The first sample of a device is its average.
pub proof fn law_first_sample_is_average(rtt: nat, now: Timestamp)
    ensures
        latency_after(None, rtt, now).avg_rtt_us == rtt,
        latency_after(None, rtt, now).samples == 1,
{
}

/// Counting bytes adds up: two records count the sums of their bytes.
pub proof fn law_bandwidth_accumulates(
    old: Option<BandwidthView>,
    s1: nat,
    r1: nat,
    t1: Timestamp,
    s2: nat,
    r2: nat,
    t2: Timestamp,
)
    ensures
        bandwidth_after(Some(bandwidth_after(old, s1, r1, t1)), s2, r2, t2) == bandwidth_after(
            old,
            s1 + s2,
            r1 + r2,
            t2,
        ),
{
}

} // verus!
