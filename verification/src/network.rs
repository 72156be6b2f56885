//! The network monitor and the differential rate engine.
//!
//! A sample is an association list from interface name to its counters,
//! with pairwise distinct names, as the telemetry source keys them. The
//! engine takes two samples of the same handle and a window length, and
//! yields one rate entry for every interface present in both samples; an
//! interface present in only one of the two is silently omitted. A rate
//! is kept exactly, as the signed byte delta over the window together
//! with the window length in milliseconds, so the bytes-per-second value
//! `delta * 1000 / interval_ms` is represented without rounding; a delta
//! is negative when an interface's counters were reset inside the window,
//! and is deliberately not clamped.

use vstd::prelude::*;

use std::collections::HashMap;

use crate::SysMonitorError;
use crate::telemetry;

verus! {

/// One interface's counters as captured in a single sample: the
/// cumulative since-boot counters and the deltas accrued since the
/// handle's previous refresh.
#[derive(Debug, Clone, Copy, PartialEq, Eq, Structural)]
pub struct NetworkInterfaceInfo {
    pub total_received_bytes: u64,
    pub received_bytes: u64,
    pub total_transmitted_bytes: u64,
    pub transmitted_bytes: u64,
    pub total_received_packets: u64,
    pub received_packets: u64,
    pub total_transmitted_packets: u64,
    pub transmitted_packets: u64,
    pub errors_on_received: u64,
    pub errors_on_transmitted: u64,
}

/// One interface's transfer rate over a measurement window, held exactly:
/// the downlink rate in bytes per second is
/// `rx_bytes_delta * 1000 / interval_ms`, and the uplink rate is
/// `tx_bytes_delta * 1000 / interval_ms`, both as exact fractions.
#[derive(Debug, Clone, Copy, PartialEq, Eq, Structural)]
pub struct ThroughputRate {
    pub rx_bytes_delta: i128,
    pub tx_bytes_delta: i128,
    pub interval_ms: u64,
}

/// Pairwise distinct names, as every single sample has them.
pub open spec fn distinct_names<T>(s: Seq<(String, T)>) -> bool {
    forall|i: int, j: int| 0 <= i < j < s.len() ==> s[i].0@ != s[j].0@
}

/// The first entry of the association list carrying the name, if any.
pub open spec fn assoc_lookup<T>(table: Seq<(String, T)>, name: Seq<char>) -> Option<T>
    decreases table.len(),
{
    if table.len() == 0 {
        None
    } else if table[0].0@ == name {
        Some(table[0].1)
    } else {
        assoc_lookup(table.drop_first(), name)
    }
}

/// The rate entry for one interface observed in two samples taken
/// `interval_ms` apart: the since-last-refresh byte counters of the
/// earlier sample subtracted from those of the later one.
pub open spec fn rate_of(
    prev: NetworkInterfaceInfo,
    post: NetworkInterfaceInfo,
    interval_ms: u64,
) -> ThroughputRate {
    ThroughputRate {
        rx_bytes_delta: (post.received_bytes - prev.received_bytes) as i128,
        tx_bytes_delta: (post.transmitted_bytes - prev.transmitted_bytes) as i128,
        interval_ms: interval_ms,
    }
}

/// The engine's result on two samples: one entry per interface of the
/// later sample that is also present in the earlier one, in the later
/// sample's order, each carrying its rate over the window.
pub open spec fn throughput_spec(
    prev: Seq<(String, NetworkInterfaceInfo)>,
    post: Seq<(String, NetworkInterfaceInfo)>,
    interval_ms: u64,
) -> Seq<(String, ThroughputRate)>
    decreases post.len(),
{
    if post.len() == 0 {
        Seq::empty()
    } else {
        let tail = throughput_spec(prev, post.drop_first(), interval_ms);
        match assoc_lookup(prev, post.first().0@) {
            Some(a) => seq![(post.first().0, rate_of(a, post.first().1, interval_ms))] + tail,
            None => tail,
        }
    }
}

/// Scans a sample for an interface by name.
pub fn find_interface(table: &Vec<(String, NetworkInterfaceInfo)>, name: &String) -> (r: Option<
    NetworkInterfaceInfo,
>)
    ensures
        r == assoc_lookup(table@, name@),
{
    let mut i: usize = 0;
    proof {
        assert(table@.skip(0) =~= table@);
    }
    while i < table.len()
        invariant
            i <= table.len(),
            assoc_lookup(table@, name@) == assoc_lookup(table@.skip(i as int), name@),
        decreases table.len() - i,
    {
        proof {
            assert(table@.skip(i as int)[0] == table@[i as int]);
            assert(table@.skip(i as int).drop_first() =~= table@.skip(i as int + 1));
        }
        let entry = &table[i];
        if entry.0 == *name {
            return Some(entry.1);
        }
        i += 1;
    }
    proof {
        assert(table@.skip(table@.len() as int) =~= Seq::<(String, NetworkInterfaceInfo)>::empty());
    }
    None
}

/// The differential rate engine on two concrete samples: computes exactly
/// `throughput_spec` of the two. The window length must be positive; a
/// zero-length window has no rate (the callers reject it before getting
/// here).
pub fn compute_throughput(
    prev: &Vec<(String, NetworkInterfaceInfo)>,
    post: &Vec<(String, NetworkInterfaceInfo)>,
    interval_ms: u64,
) -> (r: Vec<(String, ThroughputRate)>)
    requires
        interval_ms > 0,
    ensures
        r@ == throughput_spec(prev@, post@, interval_ms),
{
    let mut r: Vec<(String, ThroughputRate)> = Vec::new();
    let mut i: usize = 0;
    proof {
        assert(post@.skip(0) =~= post@);
        assert(Seq::<(String, ThroughputRate)>::empty() + throughput_spec(
            prev@,
            post@,
            interval_ms,
        ) =~= throughput_spec(prev@, post@, interval_ms));
    }
    while i < post.len()
        invariant
            i <= post.len(),
            r@ + throughput_spec(prev@, post@.skip(i as int), interval_ms) == throughput_spec(
                prev@,
                post@,
                interval_ms,
            ),
        decreases post.len() - i,
    {
        let ghost r_prev = r@;
        let ghost head = post@[i as int];
        proof {
            assert(post@.skip(i as int)[0] == head);
            assert(post@.skip(i as int).first() == head);
            assert(post@.skip(i as int).drop_first() =~= post@.skip(i as int + 1));
        }
        let ghost tail = throughput_spec(prev@, post@.skip(i as int + 1), interval_ms);
        let entry = &post[i];
        match find_interface(prev, &entry.0) {
            Some(a) => {
                let rate = ThroughputRate {
                    rx_bytes_delta: entry.1.received_bytes as i128 - a.received_bytes as i128,
                    tx_bytes_delta: entry.1.transmitted_bytes as i128 - a.transmitted_bytes as i128,
                    interval_ms: interval_ms,
                };
                let name = entry.0.clone();
                r.push((name, rate));
                proof {
                    assert(rate == rate_of(a, head.1, interval_ms));
                    assert(throughput_spec(prev@, post@.skip(i as int), interval_ms) == seq![
                        (head.0, rate_of(a, head.1, interval_ms)),
                    ] + tail);
                    assert(r@ =~= r_prev + seq![(head.0, rate_of(a, head.1, interval_ms))]);
                    assert(r@ + tail =~= r_prev + (seq![(head.0, rate_of(a, head.1, interval_ms))]
                        + tail));
                }
            },
            None => {
                proof {
                    assert(throughput_spec(prev@, post@.skip(i as int), interval_ms) == tail);
                }
            },
        }
        i += 1;
    }
    proof {
        assert(post@.skip(post@.len() as int) =~= Seq::<(String, NetworkInterfaceInfo)>::empty());
        assert(r@ + Seq::<(String, ThroughputRate)>::empty() =~= r@);
    }
    r
}

/// An interface present in both samples is present in the engine's
/// result, under its own name, with exactly the rate computed from its
/// two observations: the byte deltas of the later sample's
/// since-last-refresh counters against the earlier sample's, over the
/// given window.
pub proof fn lemma_throughput_present(
    prev: Seq<(String, NetworkInterfaceInfo)>,
    post: Seq<(String, NetworkInterfaceInfo)>,
    interval_ms: u64,
    name: Seq<char>,
    a: NetworkInterfaceInfo,
    b: NetworkInterfaceInfo,
)
    requires
        assoc_lookup(prev, name) == Some(a),
        assoc_lookup(post, name) == Some(b),
    ensures
        assoc_lookup(throughput_spec(prev, post, interval_ms), name) == Some(
            rate_of(a, b, interval_ms),
        ),
    decreases post.len(),
{
    let head = post.first();
    let tail = throughput_spec(prev, post.drop_first(), interval_ms);
    let out = throughput_spec(prev, post, interval_ms);
    if head.0@ == name {
        assert(b == head.1);
        assert(out == seq![(head.0, rate_of(a, head.1, interval_ms))] + tail);
        assert(out[0] == (head.0, rate_of(a, b, interval_ms)));
        assert(assoc_lookup(out, name) == Some(out[0].1));
    } else {
        assert(assoc_lookup(post.drop_first(), name) == Some(b));
        lemma_throughput_present(prev, post.drop_first(), interval_ms, name, a, b);
        match assoc_lookup(prev, head.0@) {
            Some(h) => {
                assert(out == seq![(head.0, rate_of(h, head.1, interval_ms))] + tail);
                assert(out[0].0@ == head.0@);
                assert(out.drop_first() =~= tail);
                assert(assoc_lookup(out, name) == assoc_lookup(tail, name));
            },
            None => {
                assert(out == tail);
            },
        }
    }
}

/// An interface absent from the later (post-window) sample is absent from
/// the engine's result: no error is raised and no entry is made up.
pub proof fn lemma_throughput_absent_from_post(
    prev: Seq<(String, NetworkInterfaceInfo)>,
    post: Seq<(String, NetworkInterfaceInfo)>,
    interval_ms: u64,
    name: Seq<char>,
)
    requires
        assoc_lookup(post, name) is None,
    ensures
        assoc_lookup(throughput_spec(prev, post, interval_ms), name) is None,
    decreases post.len(),
{
    if post.len() > 0 {
        let head = post.first();
        let tail = throughput_spec(prev, post.drop_first(), interval_ms);
        let out = throughput_spec(prev, post, interval_ms);
        assert(head.0@ != name);
        assert(assoc_lookup(post.drop_first(), name) is None);
        lemma_throughput_absent_from_post(prev, post.drop_first(), interval_ms, name);
        match assoc_lookup(prev, head.0@) {
            Some(h) => {
                assert(out == seq![(head.0, rate_of(h, head.1, interval_ms))] + tail);
                assert(out[0].0@ == head.0@);
                assert(out.drop_first() =~= tail);
                assert(assoc_lookup(out, name) == assoc_lookup(tail, name));
            },
            None => {
                assert(out == tail);
            },
        }
    }
}

/// An interface absent from the earlier (baseline) sample is absent from
/// the engine's result as well: an interface new since the baseline is
/// silently omitted, not zero-filled.
pub proof fn lemma_throughput_absent_from_prev(
    prev: Seq<(String, NetworkInterfaceInfo)>,
    post: Seq<(String, NetworkInterfaceInfo)>,
    interval_ms: u64,
    name: Seq<char>,
)
    requires
        assoc_lookup(prev, name) is None,
    ensures
        assoc_lookup(throughput_spec(prev, post, interval_ms), name) is None,
    decreases post.len(),
{
    if post.len() > 0 {
        let head = post.first();
        let tail = throughput_spec(prev, post.drop_first(), interval_ms);
        let out = throughput_spec(prev, post, interval_ms);
        lemma_throughput_absent_from_prev(prev, post.drop_first(), interval_ms, name);
        match assoc_lookup(prev, head.0@) {
            Some(h) => {
                assert(head.0@ != name);
                assert(out == seq![(head.0, rate_of(h, head.1, interval_ms))] + tail);
                assert(out[0].0@ == head.0@);
                assert(out.drop_first() =~= tail);
                assert(assoc_lookup(out, name) == assoc_lookup(tail, name));
            },
            None => {
                assert(out == tail);
            },
        }
    }
}

/// The network monitor: an exclusively owned telemetry handle plus the
/// baseline sample against which the next throughput window is measured.
/// The ghost `refreshes` field counts completed re-reads of the interface
/// counters; every query bumps it by exactly one, which states the
/// read-after-refresh discipline in the contracts.
pub struct NetworkInfo {
    system: sysinfo::System,
    previous_stats: Vec<(String, NetworkInterfaceInfo)>,
    refreshes: Ghost<nat>,
}

impl NetworkInfo {
    /// How many completed refreshes of the interface counters this
    /// monitor has performed.
    pub closed spec fn refresh_count(&self) -> nat {
        self.refreshes@
    }

    /// The stored baseline sample, keyed by interface name.
    pub closed spec fn baseline(&self) -> Seq<(String, NetworkInterfaceInfo)> {
        self.previous_stats@
    }

    /// Builds a monitor over a fresh handle, with an empty baseline, and
    /// performs one eager full refresh.
    pub fn new() -> (s: Self)
        ensures
            s.refresh_count() == 1,
            s.baseline() == Seq::<(String, NetworkInterfaceInfo)>::empty(),
    {
        let mut system = telemetry::new_system();
        telemetry::refresh_all(&mut system);
        NetworkInfo { system, previous_stats: Vec::new(), refreshes: Ghost(1nat) }
    }

    /// Synchronously re-reads the interface counters; the baseline is
    /// left as it was.
    pub fn refresh(&mut self)
        ensures
            final(self).refresh_count() == old(self).refresh_count() + 1,
            final(self).baseline() == old(self).baseline(),
    {
        telemetry::refresh_networks(&mut self.system);
        self.refreshes = Ghost(self.refreshes@ + 1);
    }

    /// Refreshes, then captures the current interface counters as one
    /// sample keyed by interface name.
    pub fn sample_interfaces(&mut self) -> (v: Vec<(String, NetworkInterfaceInfo)>)
        ensures
            final(self).refresh_count() == old(self).refresh_count() + 1,
            final(self).baseline() == old(self).baseline(),
            distinct_names(v@),
    {
        self.refresh();
        telemetry::read_interfaces(&self.system)
    }

    /// Refreshes, then hands back the current counters of every
    /// interface, keyed by name. The underlying source reports no
    /// failure, so the result is always the success case.
    pub fn get_network_metrics(&mut self) -> (r: Result<
        HashMap<String, NetworkInterfaceInfo>,
        SysMonitorError,
    >)
        ensures
            final(self).refresh_count() == old(self).refresh_count() + 1,
            final(self).baseline() == old(self).baseline(),
            r matches Ok(_),
    {
        let sample = self.sample_interfaces();
        let mut rest = sample;
        let mut m: HashMap<String, NetworkInterfaceInfo> = HashMap::new();
        while rest.len() > 0
            decreases rest@.len(),
        {
            let (name, info) = rest.remove(0);
            m.insert(name, info);
        }
        Ok(m)
    }

    /// Refreshes, then stores the captured sample as the baseline for the
    /// next throughput window, replacing any earlier baseline whole.
    pub fn record_baseline(&mut self)
        ensures
            final(self).refresh_count() == old(self).refresh_count() + 1,
            distinct_names(final(self).baseline()),
    {
        let sample = self.sample_interfaces();
        self.previous_stats = sample;
    }

    /// Refreshes, captures the post-window sample, and computes the rate
    /// over the given window for every interface present both in the
    /// stored baseline and in the fresh sample; an interface present in
    /// only one of the two is silently omitted. A window of zero length
    /// is rejected with a network-subsystem error rather than dividing by
    /// zero. The baseline is kept as it was; the caller is responsible
    /// for having let `interval_ms` of wall-clock time elapse between
    /// `record_baseline` and this call.
    pub fn throughput_since_baseline(&mut self, interval_ms: u64) -> (r: Result<
        Vec<(String, ThroughputRate)>,
        SysMonitorError,
    >)
        ensures
            interval_ms == 0 ==> {
                &&& *final(self) == *old(self)
                &&& r matches Err(e) && e matches SysMonitorError::NetworkError(_)
            },
            interval_ms > 0 ==> {
                &&& final(self).refresh_count() == old(self).refresh_count() + 1
                &&& final(self).baseline() == old(self).baseline()
                &&& r matches Ok(v) && exists|post: Seq<(String, NetworkInterfaceInfo)>|
                    distinct_names(post) && v@ == throughput_spec(
                        old(self).baseline(),
                        post,
                        interval_ms,
                    )
            },
    {
        if interval_ms == 0 {
            return Err(
                SysMonitorError::NetworkError("measurement interval must be positive".to_string()),
            );
        }
        let post = self.sample_interfaces();
        let rates = compute_throughput(&self.previous_stats, &post, interval_ms);
        proof {
            assert(exists|p: Seq<(String, NetworkInterfaceInfo)>|
                distinct_names(p) && rates@ == throughput_spec(
                    old(self).baseline(),
                    p,
                    interval_ms,
                )) by {
                assert(distinct_names(post@) && rates@ == throughput_spec(
                    old(self).baseline(),
                    post@,
                    interval_ms,
                ));
            }
        }
        Ok(rates)
    }
}

} // verus!
