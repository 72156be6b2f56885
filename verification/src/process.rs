//! The process monitor: a live view of the host's process table with
//! lookup by id and strict-threshold filter search.
//!
//! Every query re-reads the table first (read-after-refresh), so two calls
//! may legitimately observe tables of different sizes. The selection logic
//! itself is pure and fully specified: `filter_records` keeps exactly the
//! records whose relevant field satisfies a strict inequality against the
//! threshold, and `map_from_records` keys a snapshot by process id.

use vstd::prelude::*;

use std::collections::HashMap;

use crate::SysMonitorError;
use crate::telemetry;

verus! {

broadcast use vstd::std_specs::hash::group_hash_axioms;

/// One process record as captured in a single snapshot. Ids are unique
/// within a snapshot but may be reused by the host between snapshots; no
/// identity reconciliation is attempted. CPU load is in whole percentage
/// points per core (it may exceed 100 on multi-core hosts); memory is the
/// resident size in bytes.
#[derive(Debug, Clone)]
pub struct ProcessInfo {
    pub pid: u32,
    pub name: String,
    pub cmd: Vec<String>,
    pub memory: u64,
    pub cpu_usage: u64,
    pub start_time: u64,
    pub user: String,
}

/// A search predicate over one numeric field of a process record. All four
/// comparisons are strict: a record whose field equals the threshold
/// satisfies neither the less-than nor the more-than form.
#[derive(Debug, Clone, Copy)]
pub enum ProcessFilter {
    MemoryLessThan(u64),
    MemoryMoreThan(u64),
    CpuLessThan(u64),
    CpuMoreThan(u64),
}

/// Whether a record satisfies a filter: a strict inequality of the
/// relevant field against the threshold.
pub open spec fn filter_matches(p: ProcessInfo, f: ProcessFilter) -> bool {
    match f {
        ProcessFilter::MemoryLessThan(limit) => p.memory < limit,
        ProcessFilter::MemoryMoreThan(limit) => p.memory > limit,
        ProcessFilter::CpuLessThan(limit) => p.cpu_usage < limit,
        ProcessFilter::CpuMoreThan(limit) => p.cpu_usage > limit,
    }
}

/// The filter as a predicate on records, for use with `Seq::filter`.
pub open spec fn filter_pred(f: ProcessFilter) -> spec_fn(ProcessInfo) -> bool {
    |p: ProcessInfo| filter_matches(p, f)
}

/// Pairwise distinct process ids, as every single snapshot has them.
pub open spec fn distinct_pids(s: Seq<ProcessInfo>) -> bool {
    forall|i: int, j: int| 0 <= i < j < s.len() ==> s[i].pid != s[j].pid
}

/// Decides `filter_matches` on a concrete record.
pub fn matches_filter(p: &ProcessInfo, f: ProcessFilter) -> (b: bool)
    ensures
        b == filter_matches(*p, f),
{
    match f {
        ProcessFilter::MemoryLessThan(limit) => p.memory < limit,
        ProcessFilter::MemoryMoreThan(limit) => p.memory > limit,
        ProcessFilter::CpuLessThan(limit) => p.cpu_usage < limit,
        ProcessFilter::CpuMoreThan(limit) => p.cpu_usage > limit,
    }
}

/// Keeps exactly the records that satisfy the filter, in snapshot order.
pub fn filter_records(records: Vec<ProcessInfo>, f: ProcessFilter) -> (r: Vec<ProcessInfo>)
    ensures
        r@ == records@.filter(filter_pred(f)),
{
    let ghost orig = records@;
    let mut rest = records;
    proof {
        assert(rest@.len() == rest.len());
    }
    let mut done: usize = 0;
    let mut r: Vec<ProcessInfo> = Vec::new();
    while rest.len() > 0
        invariant
            orig.len() <= usize::MAX,
            done + rest@.len() == orig.len(),
            rest@ == orig.skip(done as int),
            r@ == orig.take(done as int).filter(filter_pred(f)),
        decreases rest@.len(),
    {
        proof {
            reveal(Seq::filter);
            assert(orig.take(done as int + 1).drop_last() =~= orig.take(done as int));
            assert(orig.take(done as int + 1).last() == orig[done as int]);
            assert(orig.skip(done as int)[0] == orig[done as int]);
            assert(orig.skip(done as int).remove(0) =~= orig.skip(done as int + 1));
        }
        let x = rest.remove(0);
        if matches_filter(&x, f) {
            r.push(x);
        }
        done += 1;
    }
    proof {
        assert(orig.take(done as int) =~= orig);
    }
    r
}

/// Every record of a filtered sequence comes from the sequence it was
/// filtered out of.
proof fn lemma_filter_elems(s: Seq<ProcessInfo>, pred: spec_fn(ProcessInfo) -> bool)
    ensures
        forall|k: int|
            0 <= k < s.filter(pred).len() ==> s.contains(#[trigger] s.filter(pred)[k]),
    decreases s.len(),
{
    reveal(Seq::filter);
    if s.len() > 0 {
        let t = s.drop_last();
        lemma_filter_elems(t, pred);
        assert forall|k: int|
            0 <= k < s.filter(pred).len() implies s.contains(#[trigger] s.filter(pred)[k]) by {
            if k < t.filter(pred).len() {
                assert(s.filter(pred)[k] == t.filter(pred)[k]);
                let j = choose|j: int| 0 <= j < t.len() && t[j] == t.filter(pred)[k];
                assert(s[j] == s.filter(pred)[k]);
            } else {
                assert(s.filter(pred)[k] == s.last());
                assert(s[s.len() - 1] == s.last());
            }
        }
    }
}

/// Filtering preserves the snapshot invariant that process ids are
/// pairwise distinct.
proof fn lemma_filter_distinct_pids(s: Seq<ProcessInfo>, pred: spec_fn(ProcessInfo) -> bool)
    requires
        distinct_pids(s),
    ensures
        distinct_pids(s.filter(pred)),
    decreases s.len(),
{
    reveal(Seq::filter);
    if s.len() > 0 {
        let t = s.drop_last();
        assert(distinct_pids(t)) by {
            assert forall|i: int, j: int| 0 <= i < j < t.len() implies t[i].pid != t[j].pid by {
                assert(s[i] == t[i] && s[j] == t[j]);
            }
        }
        lemma_filter_distinct_pids(t, pred);
        lemma_filter_elems(t, pred);
        if pred(s.last()) {
            let out = s.filter(pred);
            assert forall|i: int, j: int| 0 <= i < j < out.len() implies out[i].pid
                != out[j].pid by {
                if j < out.len() - 1 {
                    assert(out[i] == t.filter(pred)[i] && out[j] == t.filter(pred)[j]);
                } else {
                    assert(out[j] == s.last());
                    assert(out[i] == t.filter(pred)[i]);
                    assert(t.contains(t.filter(pred)[i]));
                    let w = choose|w: int| 0 <= w < t.len() && t[w] == t.filter(pred)[i];
                    assert(s[w] == out[i]);
                    assert(s[w].pid != s[s.len() - 1].pid);
                }
            }
        }
    }
}

/// For every snapshot, threshold and record of the snapshot: the record
/// stands in the memory-more-than selection iff its memory strictly
/// exceeds the threshold, in the memory-less-than selection iff its memory
/// is strictly below it, and a record whose memory equals the threshold
/// stands in neither selection.
pub proof fn lemma_strict_memory_boundary(s: Seq<ProcessInfo>, t: u64, p: ProcessInfo)
    requires
        s.contains(p),
    ensures
        s.filter(filter_pred(ProcessFilter::MemoryMoreThan(t))).contains(p) <==> p.memory > t,
        s.filter(filter_pred(ProcessFilter::MemoryLessThan(t))).contains(p) <==> p.memory < t,
        p.memory == t ==> !s.filter(filter_pred(ProcessFilter::MemoryMoreThan(t))).contains(p)
            && !s.filter(filter_pred(ProcessFilter::MemoryLessThan(t))).contains(p),
{
    let more = filter_pred(ProcessFilter::MemoryMoreThan(t));
    let less = filter_pred(ProcessFilter::MemoryLessThan(t));
    let i = choose|i: int| 0 <= i < s.len() && s[i] == p;
    if p.memory > t {
        s.lemma_filter_contains(more, i);
    }
    if p.memory < t {
        s.lemma_filter_contains(less, i);
    }
    if s.filter(more).contains(p) {
        let j = choose|j: int| 0 <= j < s.filter(more).len() && s.filter(more)[j] == p;
        s.lemma_filter_pred(more, j);
    }
    if s.filter(less).contains(p) {
        let j = choose|j: int| 0 <= j < s.filter(less).len() && s.filter(less)[j] == p;
        s.lemma_filter_pred(less, j);
    }
}

/// Keys a snapshot by process id. The result holds exactly the records of
/// the snapshot, each under its own id.
pub fn map_from_records(records: Vec<ProcessInfo>) -> (m: HashMap<u32, ProcessInfo>)
    requires
        distinct_pids(records@),
    ensures
        forall|i: int|
            0 <= i < records@.len() ==> m@.contains_key(#[trigger] records@[i].pid)
                && m@[records@[i].pid] == records@[i],
        forall|k: u32| #[trigger]
            m@.contains_key(k) ==> exists|i: int| 0 <= i < records@.len() && records@[i].pid == k,
        m@.len() == records@.len(),
{
    let ghost orig = records@;
    let mut rest = records;
    proof {
        assert(rest@.len() == rest.len());
    }
    let mut done: usize = 0;
    let mut m: HashMap<u32, ProcessInfo> = HashMap::new();
    while rest.len() > 0
        invariant
            orig.len() <= usize::MAX,
            done + rest@.len() == orig.len(),
            rest@ == orig.skip(done as int),
            distinct_pids(orig),
            forall|i: int|
                0 <= i < done ==> m@.contains_key(#[trigger] orig[i].pid) && m@[orig[i].pid]
                    == orig[i],
            forall|k: u32| #[trigger]
                m@.contains_key(k) ==> exists|i: int| 0 <= i < done && orig[i].pid == k,
            m@.len() == done,
        decreases rest@.len(),
    {
        proof {
            broadcast use vstd::set::group_set_axioms;
            assert(orig.skip(done as int)[0] == orig[done as int]);
            assert(orig.skip(done as int).remove(0) =~= orig.skip(done as int + 1));
            assert(!m@.contains_key(orig[done as int].pid));
            assert(m@.insert(orig[done as int].pid, orig[done as int]).dom() =~= m@.dom().insert(
                orig[done as int].pid,
            ));
        }
        let x = rest.remove(0);
        m.insert(x.pid, x);
        done += 1;
    }
    m
}

/// Turns the outcome of a process-table lookup into the query's result: a
/// found record is handed back as it stands, and a miss becomes the
/// process-not-found case carrying the id that was asked for.
pub fn resolve_lookup(found: Option<ProcessInfo>, pid: u32) -> (r: Result<
    ProcessInfo,
    SysMonitorError,
>)
    ensures
        match found {
            Some(p) => r == Ok::<ProcessInfo, SysMonitorError>(p),
            None => r == Err::<ProcessInfo, SysMonitorError>(SysMonitorError::ProcessNotFound(pid)),
        },
{
    match found {
        Some(p) => Ok(p),
        None => Err(SysMonitorError::ProcessNotFound(pid)),
    }
}

/// The process monitor: an exclusively owned telemetry handle. The ghost
/// `refreshes` field counts completed re-reads of the process table; every
/// query bumps it by exactly one, which states the read-after-refresh
/// discipline in the contracts.
pub struct Process {
    system: sysinfo::System,
    refreshes: Ghost<nat>,
}

impl Process {
    /// How many completed refreshes of the process table this monitor has
    /// performed.
    pub closed spec fn refresh_count(&self) -> nat {
        self.refreshes@
    }

    /// Builds a monitor over a fresh handle and performs one eager full
    /// refresh.
    pub fn new() -> (s: Self)
        ensures
            s.refresh_count() == 1,
    {
        let mut system = telemetry::new_system();
        telemetry::refresh_all(&mut system);
        Process { system, refreshes: Ghost(1nat) }
    }

    /// Synchronously re-reads the whole process table.
    pub fn refresh(&mut self)
        ensures
            final(self).refresh_count() == old(self).refresh_count() + 1,
    {
        telemetry::refresh_all(&mut self.system);
        self.refreshes = Ghost(self.refreshes@ + 1);
    }

    /// Re-reads the table, then hands back the entire current snapshot
    /// keyed by process id. The snapshot is independent of any earlier
    /// call: no value survives from one query to the next.
    pub fn get_all_processes(&mut self) -> (m: HashMap<u32, ProcessInfo>)
        ensures
            final(self).refresh_count() == old(self).refresh_count() + 1,
            forall|k: u32| #[trigger] m@.contains_key(k) ==> m@[k].pid == k,
    {
        self.refresh();
        let v = telemetry::read_processes(&self.system);
        map_from_records(v)
    }

    /// Re-reads the table, then looks the id up in the current snapshot:
    /// a live id yields its fully populated record, any other id yields
    /// the process-not-found case carrying that id.
    pub fn get_process_by_pid(&mut self, pid: u32) -> (r: Result<ProcessInfo, SysMonitorError>)
        ensures
            final(self).refresh_count() == old(self).refresh_count() + 1,
            r matches Ok(p) ==> p.pid == pid,
            r matches Err(e) ==> e == SysMonitorError::ProcessNotFound(pid),
    {
        self.refresh();
        let found = telemetry::lookup_process(&self.system, pid);
        resolve_lookup(found, pid)
    }

    /// Re-reads the table, then keeps exactly the records of the current
    /// snapshot that satisfy the filter, keyed by process id.
    pub fn find_processes_by_filter(&mut self, filter: ProcessFilter) -> (m: HashMap<
        u32,
        ProcessInfo,
    >)
        ensures
            final(self).refresh_count() == old(self).refresh_count() + 1,
            forall|k: u32| #[trigger]
                m@.contains_key(k) ==> m@[k].pid == k && filter_matches(m@[k], filter),
    {
        self.refresh();
        let v = telemetry::read_processes(&self.system);
        let ghost snapshot = v@;
        proof {
            lemma_filter_distinct_pids(snapshot, filter_pred(filter));
        }
        let kept = filter_records(v, filter);
        let m = map_from_records(kept);
        proof {
            assert forall|k: u32| #[trigger] m@.contains_key(k) implies m@[k].pid == k
                && filter_matches(m@[k], filter) by {
                let i = choose|i: int| 0 <= i < kept@.len() && kept@[i].pid == k;
                snapshot.lemma_filter_pred(filter_pred(filter), i);
            }
        }
        m
    }
}

} // verus!
