use vstd::prelude::*;

mod network;
mod process;
mod system;
mod telemetry;

pub use network::NetworkInfo;
pub use network::NetworkInterfaceInfo;
pub use network::ThroughputRate;
pub use network::assoc_lookup;
pub use network::compute_throughput;
pub use network::distinct_names;
pub use network::find_interface;
pub use network::lemma_throughput_absent_from_post;
pub use network::lemma_throughput_absent_from_prev;
pub use network::lemma_throughput_present;
pub use network::rate_of;
pub use network::throughput_spec;
pub use process::Process;
pub use process::ProcessFilter;
pub use process::ProcessInfo;
pub use process::distinct_pids;
pub use process::filter_matches;
pub use process::filter_pred;
pub use process::filter_records;
pub use process::lemma_strict_memory_boundary;
pub use process::map_from_records;
pub use process::matches_filter;
pub use process::resolve_lookup;
pub use system::CpuInfo;
pub use system::MemoryInfo;
pub use system::SystemMonitor;

verus! {

/// Failures surfaced by the monitors, by subsystem, plus the one
/// expected-outcome case: a lookup for a process id that is not running.
#[derive(Debug, Clone, PartialEq, Eq)]
pub enum SysMonitorError {
    ProcessError(String),
    SystemError(String),
    NetworkError(String),
    ProcessNotFound(u32),
}

} // verus!
