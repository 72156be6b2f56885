use sysmonitor::{
    Process, ProcessFilter, ProcessInfo, SysMonitorError, filter_records, map_from_records,
    matches_filter, resolve_lookup,
};

fn record(pid: u32, memory: u64, cpu: u64) -> ProcessInfo {
    ProcessInfo {
        pid,
        name: format!("proc{}", pid),
        cmd: vec![format!("/bin/proc{}", pid)],
        memory,
        cpu_usage: cpu,
        start_time: 0,
        user: String::from("root"),
    }
}

const MB: u64 = 1024 * 1024;

#[test]
fn memory_filter_scenario_three_records() {
    let records = vec![
        record(1, 600 * MB, 0),
        record(2, 400 * MB, 0),
        record(3, 512 * MB, 0),
    ];

    let more = filter_records(records.clone(), ProcessFilter::MemoryMoreThan(512 * MB));
    assert_eq!(more.len(), 1);
    assert_eq!(more[0].pid, 1);

    let less = filter_records(records.clone(), ProcessFilter::MemoryLessThan(512 * MB));
    assert_eq!(less.len(), 1);
    assert_eq!(less[0].pid, 2);

    // the record exactly at the threshold appears in neither selection
    assert!(more.iter().all(|p| p.pid != 3));
    assert!(less.iter().all(|p| p.pid != 3));
}

#[test]
fn filter_boundary_is_strict_for_all_four_filters() {
    let p = record(7, 1000, 50);
    assert!(!matches_filter(&p, ProcessFilter::MemoryMoreThan(1000)));
    assert!(!matches_filter(&p, ProcessFilter::MemoryLessThan(1000)));
    assert!(!matches_filter(&p, ProcessFilter::CpuMoreThan(50)));
    assert!(!matches_filter(&p, ProcessFilter::CpuLessThan(50)));
    assert!(matches_filter(&p, ProcessFilter::MemoryMoreThan(999)));
    assert!(matches_filter(&p, ProcessFilter::MemoryLessThan(1001)));
    assert!(matches_filter(&p, ProcessFilter::CpuMoreThan(49)));
    assert!(matches_filter(&p, ProcessFilter::CpuLessThan(51)));
}

#[test]
fn cpu_filter_keeps_only_strictly_greater() {
    let records = vec![record(1, 0, 5), record(2, 0, 10), record(3, 0, 20)];
    let busy = filter_records(records, ProcessFilter::CpuMoreThan(10));
    assert_eq!(busy.len(), 1);
    assert_eq!(busy[0].pid, 3);
}

#[test]
fn map_from_records_keys_by_pid() {
    let records = vec![record(10, MB, 1), record(20, 2 * MB, 2), record(30, 3 * MB, 3)];
    let m = map_from_records(records);
    assert_eq!(m.len(), 3);
    assert_eq!(m.get(&10).unwrap().memory, MB);
    assert_eq!(m.get(&20).unwrap().memory, 2 * MB);
    assert_eq!(m.get(&30).unwrap().cpu_usage, 3);
    assert!(m.get(&40).is_none());
}

#[test]
fn resolve_lookup_found_hands_record_back() {
    let p = record(42, 5 * MB, 1);
    let r = resolve_lookup(Some(p), 42);
    let got = r.unwrap();
    assert_eq!(got.pid, 42);
    assert_eq!(got.memory, 5 * MB);
    assert_eq!(got.name, "proc42");
}

#[test]
fn resolve_lookup_miss_is_process_not_found() {
    let r = resolve_lookup(None, 99999);
    assert_eq!(r.unwrap_err(), SysMonitorError::ProcessNotFound(99999));
}

#[test]
fn live_process_table_keys_match_records() {
    let mut monitor = Process::new();
    let all = monitor.get_all_processes();
    assert!(!all.is_empty());
    for (pid, info) in &all {
        assert_eq!(*pid, info.pid);
    }
}

#[test]
fn live_two_calls_are_independent_refreshes() {
    let mut monitor = Process::new();
    let first = monitor.get_all_processes();
    let second = monitor.get_all_processes();
    // each call re-reads the table; the sizes may legitimately differ, so
    // only the per-call guarantees are checked
    assert!(!first.is_empty());
    assert!(!second.is_empty());
    for (pid, info) in &second {
        assert_eq!(*pid, info.pid);
    }
}

#[test]
fn live_lookup_of_impossible_pid_is_not_found() {
    let mut monitor = Process::new();
    let r = monitor.get_process_by_pid(u32::MAX);
    assert_eq!(r.unwrap_err(), SysMonitorError::ProcessNotFound(u32::MAX));
}

#[test]
fn live_filtered_records_all_satisfy_filter() {
    let mut monitor = Process::new();
    let busy = monitor.find_processes_by_filter(ProcessFilter::MemoryMoreThan(0));
    for (pid, info) in &busy {
        assert_eq!(*pid, info.pid);
        assert!(info.memory > 0);
    }
}
