//! The trusted boundary to the host's telemetry source.
//!
//! Every read of live operating-system state goes through one of the
//! `external_body` functions below, which call into the `sysinfo` crate.
//! Each one converts what `sysinfo` hands back into the plain record types
//! of this crate, so that everything downstream of a snapshot is verified.
//! Nothing here promises concrete counter values: what the host reports is
//! outside any contract. The only facts stated are structural ones that
//! `sysinfo` guarantees by construction, such as key uniqueness of its
//! entity tables.

use vstd::prelude::*;

use sysinfo::{CpuExt, NetworkExt, PidExt, ProcessExt, SystemExt};

use crate::network::NetworkInterfaceInfo;
use crate::network::distinct_names;
use crate::process::ProcessInfo;
use crate::process::distinct_pids;
use crate::system::{CpuInfo, MemoryInfo};

verus! {

#[verifier::external_type_specification]
#[verifier::external_body]
pub struct ExSystem(sysinfo::System);

/// Relies on `sysinfo::System::new_all`: builds a handle with every
/// subsystem loaded once.
#[verifier::external_body]
pub(crate) fn new_system() -> sysinfo::System {
    sysinfo::System::new_all()
}

/// Relies on `sysinfo::SystemExt::refresh_all`: synchronously re-reads
/// every counter of the handle; it reports no failure.
#[verifier::external_body]
pub(crate) fn refresh_all(sys: &mut sysinfo::System) {
    sys.refresh_all()
}

/// Relies on `sysinfo::SystemExt::refresh_networks`: synchronously
/// re-reads the network interface counters of the handle.
#[verifier::external_body]
pub(crate) fn refresh_networks(sys: &mut sysinfo::System) {
    sys.refresh_networks()
}

/// Relies on `sysinfo::SystemExt::processes` and the `ProcessExt` and
/// `PidExt` accessors (`name`, `cmd`, `memory`, `cpu_usage`, `start_time`,
/// `user_id`, `as_u32`). The process table is keyed by process id, so the
/// records carry pairwise distinct ids. CPU load is kept in whole
/// percentage points; an absent owner is reported as `"unknown"`.
#[verifier::external_body]
pub(crate) fn read_processes(sys: &sysinfo::System) -> (r: Vec<ProcessInfo>)
    ensures
        distinct_pids(r@),
{
    let mut v = Vec::new();
    for (pid, p) in sys.processes() {
        v.push(ProcessInfo {
            pid: pid.as_u32(), name: p.name().to_string(), cmd: p.cmd().to_vec(),
            memory: p.memory(), cpu_usage: p.cpu_usage() as u64, start_time: p.start_time(),
            user: p.user_id().map(|u| u.to_string()).unwrap_or_else(|| String::from("unknown")),
        });
    }
    v
}

/// Relies on `sysinfo::SystemExt::process` and the same `ProcessExt`
/// accessors as `read_processes`: looks the id up in the current process
/// table and reports the record when the id is live, nothing otherwise.
#[verifier::external_body]
pub(crate) fn lookup_process(sys: &sysinfo::System, pid: u32) -> (r: Option<ProcessInfo>)
    ensures
        r matches Some(p) ==> p.pid == pid,
{
    sys.process(sysinfo::Pid::from(pid as usize)).map(|p| ProcessInfo {
        pid, name: p.name().to_string(), cmd: p.cmd().to_vec(),
        memory: p.memory(), cpu_usage: p.cpu_usage() as u64, start_time: p.start_time(),
        user: p.user_id().map(|u| u.to_string()).unwrap_or_else(|| String::from("unknown")),
    })
}

/// Relies on `sysinfo::SystemExt::networks` and the `NetworkExt` counter
/// accessors. The interface table is keyed by interface name, so the pairs
/// carry pairwise distinct names.
#[verifier::external_body]
pub(crate) fn read_interfaces(sys: &sysinfo::System) -> (r: Vec<(String, NetworkInterfaceInfo)>)
    ensures
        distinct_names(r@),
{
    let mut v = Vec::new();
    for (name, d) in sys.networks() {
        v.push((name.clone(), NetworkInterfaceInfo {
            total_received_bytes: d.total_received(), received_bytes: d.received(),
            total_transmitted_bytes: d.total_transmitted(), transmitted_bytes: d.transmitted(),
            total_received_packets: d.total_packets_received(),
            received_packets: d.packets_received(),
            total_transmitted_packets: d.total_packets_transmitted(),
            transmitted_packets: d.packets_transmitted(),
            errors_on_received: d.errors_on_received(),
            errors_on_transmitted: d.errors_on_transmitted(),
        }));
    }
    v
}

/// Relies on `sysinfo::SystemExt::global_cpu_info`, `cpus` and
/// `CpuExt::cpu_usage`: per-core load in core-id order, kept in whole
/// percentage points.
#[verifier::external_body]
pub(crate) fn read_cpu(sys: &sysinfo::System) -> CpuInfo {
    CpuInfo {
        global_usage: sys.global_cpu_info().cpu_usage() as u64,
        cores_usage: sys.cpus().iter().map(|c| c.cpu_usage() as u64).collect(),
    }
}

/// Relies on the `sysinfo::SystemExt` memory accessors `total_memory`,
/// `used_memory`, `free_memory`, `available_memory`, `total_swap`,
/// `used_swap` and `free_swap`, all reported in bytes.
#[verifier::external_body]
pub(crate) fn read_memory(sys: &sysinfo::System) -> MemoryInfo {
    MemoryInfo {
        total: sys.total_memory(), used: sys.used_memory(), free: sys.free_memory(),
        available: sys.available_memory(), swap_total: sys.total_swap(),
        swap_used: sys.used_swap(), swap_free: sys.free_swap(),
    }
}

} // verus!
