use sysmonitor::SystemMonitor;

#[test]
fn live_memory_info_reports_plausible_totals() {
    let mut monitor = SystemMonitor::new();
    let mem = monitor.get_memory_info().unwrap();
    // platform accounting of caches and buffers varies, so no relation
    // between used, free and total is asserted beyond a nonzero total
    assert!(mem.total > 0);
    let _ = (mem.used, mem.free, mem.available, mem.swap_total, mem.swap_used, mem.swap_free);
}

#[test]
fn live_cpu_info_reports_at_least_one_core() {
    let mut monitor = SystemMonitor::new();
    let cpu = monitor.get_cpu_info().unwrap();
    assert!(!cpu.cores_usage.is_empty());
}

#[test]
fn live_queries_succeed_repeatedly() {
    let mut monitor = SystemMonitor::new();
    assert!(monitor.get_cpu_info().is_ok());
    assert!(monitor.get_memory_info().is_ok());
    assert!(monitor.get_cpu_info().is_ok());
}
