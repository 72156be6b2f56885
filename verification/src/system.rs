//! The system monitor: point-in-time CPU and memory readings, passed
//! through from the telemetry source after a full refresh.

use vstd::prelude::*;

use crate::SysMonitorError;
use crate::telemetry;

verus! {

/// Global CPU load plus the per-core loads in core-id order, all in whole
/// percentage points.
#[derive(Debug, Clone)]
pub struct CpuInfo {
    pub global_usage: u64,
    pub cores_usage: Vec<u64>,
}

/// Physical memory and swap counters, all in bytes. The host's accounting
/// of caches and buffers varies, so no relation such as
/// `used + free <= total` is assumed or stated.
#[derive(Debug, Clone, Copy, PartialEq, Eq, Structural)]
pub struct MemoryInfo {
    pub total: u64,
    pub used: u64,
    pub free: u64,
    pub available: u64,
    pub swap_total: u64,
    pub swap_used: u64,
    pub swap_free: u64,
}

/// The system monitor: an exclusively owned telemetry handle. The ghost
/// `refreshes` field counts completed refreshes; every query bumps it by
/// exactly one, which states the read-after-refresh discipline in the
/// contracts.
pub struct SystemMonitor {
    system: sysinfo::System,
    refreshes: Ghost<nat>,
}

impl SystemMonitor {
    /// How many completed refreshes this monitor has performed.
    pub closed spec fn refresh_count(&self) -> nat {
        self.refreshes@
    }

    /// Builds a monitor over a fresh handle and performs one eager full
    /// refresh.
    pub fn new() -> (s: Self)
        ensures
            s.refresh_count() == 1,
    {
        let mut system = telemetry::new_system();
        telemetry::refresh_all(&mut system);
        SystemMonitor { system, refreshes: Ghost(1nat) }
    }

    /// Synchronously re-reads every counter of the handle.
    pub fn refresh(&mut self)
        ensures
            final(self).refresh_count() == old(self).refresh_count() + 1,
    {
        telemetry::refresh_all(&mut self.system);
        self.refreshes = Ghost(self.refreshes@ + 1);
    }

    /// Refreshes, then reports the current CPU loads. The underlying
    /// source reports no failure, so the result is always the success
    /// case; the readings themselves are whatever the host reports.
    pub fn get_cpu_info(&mut self) -> (r: Result<CpuInfo, SysMonitorError>)
        ensures
            final(self).refresh_count() == old(self).refresh_count() + 1,
            r matches Ok(_),
    {
        self.refresh();
        Ok(telemetry::read_cpu(&self.system))
    }

    /// Refreshes, then reports the current memory counters. The
    /// underlying source reports no failure, so the result is always the
    /// success case.
    pub fn get_memory_info(&mut self) -> (r: Result<MemoryInfo, SysMonitorError>)
        ensures
            final(self).refresh_count() == old(self).refresh_count() + 1,
            r matches Ok(_),
    {
        self.refresh();
        Ok(telemetry::read_memory(&self.system))
    }
}

} // verus!
