use sysmonitor::{
    NetworkInfo, NetworkInterfaceInfo, SysMonitorError, compute_throughput, find_interface,
};

fn iface(rx_delta: u64, tx_delta: u64) -> NetworkInterfaceInfo {
    NetworkInterfaceInfo {
        total_received_bytes: 0,
        received_bytes: rx_delta,
        total_transmitted_bytes: 0,
        transmitted_bytes: tx_delta,
        total_received_packets: 0,
        received_packets: 0,
        total_transmitted_packets: 0,
        transmitted_packets: 0,
        errors_on_received: 0,
        errors_on_transmitted: 0,
    }
}

fn bytes_per_sec(delta: i128, interval_ms: u64) -> f64 {
    delta as f64 / (interval_ms as f64 / 1000.0)
}

#[test]
fn eth0_hundred_kilobytes_over_one_second() {
    let prev = vec![(String::from("eth0"), iface(0, 0))];
    let post = vec![(String::from("eth0"), iface(100000, 50000))];
    let rates = compute_throughput(&prev, &post, 1000);
    assert_eq!(rates.len(), 1);
    assert_eq!(rates[0].0, "eth0");
    assert_eq!(rates[0].1.rx_bytes_delta, 100000);
    assert_eq!(rates[0].1.tx_bytes_delta, 50000);
    assert_eq!(rates[0].1.interval_ms, 1000);
    assert_eq!(bytes_per_sec(rates[0].1.rx_bytes_delta, rates[0].1.interval_ms), 100000.0);
}

#[test]
fn rate_is_delta_of_since_refresh_counters_over_interval() {
    let prev = vec![(String::from("eth0"), iface(2000, 100))];
    let post = vec![(String::from("eth0"), iface(5000, 700))];
    let rates = compute_throughput(&prev, &post, 500);
    assert_eq!(rates.len(), 1);
    assert_eq!(rates[0].1.rx_bytes_delta, 3000);
    assert_eq!(rates[0].1.tx_bytes_delta, 600);
    assert_eq!(bytes_per_sec(rates[0].1.rx_bytes_delta, 500), 6000.0);
    assert_eq!(bytes_per_sec(rates[0].1.tx_bytes_delta, 500), 1200.0);
}

#[test]
fn interfaces_absent_from_either_sample_are_omitted() {
    let prev = vec![
        (String::from("eth0"), iface(10, 10)),
        (String::from("wlan0"), iface(20, 20)),
    ];
    let post = vec![
        (String::from("eth0"), iface(30, 30)),
        (String::from("tun0"), iface(40, 40)),
    ];
    let rates = compute_throughput(&prev, &post, 1000);
    // "wlan0" disappeared and "tun0" is new: both silently left out
    assert_eq!(rates.len(), 1);
    assert_eq!(rates[0].0, "eth0");
    assert_eq!(rates[0].1.rx_bytes_delta, 20);
}

#[test]
fn counter_reset_yields_negative_rate_unclamped() {
    let prev = vec![(String::from("eth0"), iface(500, 0))];
    let post = vec![(String::from("eth0"), iface(100, 0))];
    let rates = compute_throughput(&prev, &post, 1000);
    assert_eq!(rates.len(), 1);
    assert_eq!(rates[0].1.rx_bytes_delta, -400);
    assert_eq!(bytes_per_sec(rates[0].1.rx_bytes_delta, 1000), -400.0);
}

#[test]
fn empty_samples_give_empty_result() {
    let none: Vec<(String, NetworkInterfaceInfo)> = Vec::new();
    let post = vec![(String::from("eth0"), iface(1, 1))];
    assert!(compute_throughput(&none, &post, 1000).is_empty());
    assert!(compute_throughput(&post, &none, 1000).is_empty());
}

#[test]
fn find_interface_scans_by_name() {
    let table = vec![
        (String::from("eth0"), iface(1, 0)),
        (String::from("wlan0"), iface(2, 0)),
    ];
    assert_eq!(find_interface(&table, &String::from("wlan0")).unwrap().received_bytes, 2);
    assert!(find_interface(&table, &String::from("tun0")).is_none());
}

#[test]
fn live_metrics_always_succeed() {
    let mut monitor = NetworkInfo::new();
    let first = monitor.get_network_metrics();
    assert!(first.is_ok());
    let second = monitor.get_network_metrics();
    assert!(second.is_ok());
}

#[test]
fn live_zero_interval_is_rejected() {
    let mut monitor = NetworkInfo::new();
    monitor.record_baseline();
    let r = monitor.throughput_since_baseline(0);
    assert!(matches!(r, Err(SysMonitorError::NetworkError(_))));
}

#[test]
fn live_throughput_window_reports_requested_interval() {
    let mut monitor = NetworkInfo::new();
    monitor.record_baseline();
    let rates = monitor.throughput_since_baseline(5).unwrap();
    for (_, rate) in &rates {
        assert_eq!(rate.interval_ms, 5);
    }
}
