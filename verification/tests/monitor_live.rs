//! The aggregator and network counters against the live OS probe, and the
//! gated-refresh scenario as the control loop runs it.

use rust_tui_monitor::monitor::SystemMonitor;
use rust_tui_monitor::network::NetworkStats;
use rust_tui_monitor::schedule::due;
use rust_tui_monitor::stats::CpuStats;

#[test]
fn fresh_aggregator_has_no_history_and_zero_sample() {
    let monitor = SystemMonitor::new();
    assert!(monitor.cpu_history().is_empty());
    let cpu = monitor.cpu_stats();
    assert_eq!(cpu.global_usage, 0);
    assert!(cpu.per_core.is_empty());
}

#[test]
fn recorded_sample_reads_back_and_feeds_history() {
    let mut monitor = SystemMonitor::new();
    monitor.refresh();
    monitor.record_cpu_sample(CpuStats { global_usage: 421, per_core: vec![400, 442] });
    let cpu = monitor.cpu_stats();
    assert_eq!(cpu.global_usage, 421);
    assert_eq!(cpu.per_core, vec![400, 442]);
    monitor.update_cpu_history();
    assert_eq!(monitor.cpu_history(), vec![421]);
}

#[test]
fn memory_snapshot_is_well_formed() {
    let mut monitor = SystemMonitor::new();
    monitor.refresh();
    let memory = monitor.memory_stats();
    assert!(memory.used <= memory.total);
    assert!(memory.swap_used <= memory.swap_total);
    assert!(memory.used_percent() <= 1000);
    assert!(memory.swap_percent() <= 1000);
}

#[test]
fn volume_snapshots_are_consistent_and_stable() {
    let mut monitor = SystemMonitor::new();
    monitor.refresh();
    let first = monitor.disk_stats();
    for volume in &first {
        assert!(volume.used() <= volume.total);
        assert!(volume.used_percent() <= 1000);
        let label = volume.disk_type.as_str();
        assert!(label == "HDD" || label == "SSD" || label == "Unknown");
    }
    let second = monitor.disk_stats();
    assert_eq!(first.len(), second.len());
    for (a, b) in first.iter().zip(second.iter()) {
        assert_eq!(a.name, b.name);
        assert_eq!(a.total, b.total);
        assert_eq!(a.available, b.available);
    }
}

#[test]
fn network_baseline_has_zero_rates() {
    let network = NetworkStats::new(0);
    let counters = network.counters();
    assert_eq!(counters.rx_rate, 0);
    assert_eq!(counters.tx_rate, 0);
    assert_eq!(counters.last_update_ms, 0);
}

#[test]
fn network_totals_never_decrease() {
    let mut network = NetworkStats::new(0);
    let before_rx = network.total_received();
    let before_tx = network.total_transmitted();
    network.refresh(1000);
    assert!(network.total_received() >= before_rx);
    assert!(network.total_transmitted() >= before_tx);
    assert_eq!(network.counters().last_update_ms, 1000);
}

#[test]
fn network_rapid_refresh_keeps_rates() {
    let mut network = NetworkStats::new(0);
    network.refresh(1000);
    let rx_rate = network.rx_rate();
    let tx_rate = network.tx_rate();
    network.refresh(1050);
    assert_eq!(network.rx_rate(), rx_rate);
    assert_eq!(network.tx_rate(), tx_rate);
    assert_eq!(network.counters().last_update_ms, 1050);
}

#[test]
fn gated_refresh_scenario_with_one_second_interval() {
    let interval_ms = 1000u64;
    let mut monitor = SystemMonitor::new();
    let mut last_refresh_ms = 0u64;

    // t = 1200 ms: the interval has elapsed, so the loop refreshes and
    // pushes one history sample.
    assert!(due(1200, last_refresh_ms, interval_ms));
    monitor.refresh();
    monitor.record_cpu_sample(CpuStats { global_usage: 123, per_core: vec![] });
    monitor.update_cpu_history();
    last_refresh_ms = 1200;
    assert_eq!(monitor.cpu_history(), vec![123]);

    // t = 1800 ms: only 600 ms have elapsed, so no refresh is due and
    // nothing mutates; no new history sample appears.
    assert!(!due(1800, last_refresh_ms, interval_ms));
    assert_eq!(monitor.cpu_history(), vec![123]);
    assert_eq!(monitor.cpu_stats().global_usage, 123);
}
