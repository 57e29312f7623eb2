//! Behavior of the sampling core: history ring, rate calculator, refresh
//! gate, health bands and percentage derivation.

use rust_tui_monitor::band::{band_of, HealthBand};
use rust_tui_monitor::history::CpuHistory;
use rust_tui_monitor::network::{sum_deltas, NetworkCounters};
use rust_tui_monitor::rate::compute_rate;
use rust_tui_monitor::schedule::{due, RefreshState};
use rust_tui_monitor::stats::{percent_tenths, DiskStats, MemoryStats};

#[test]
fn history_empty_after_construction() {
    let ring = CpuHistory::new();
    assert_eq!(ring.len(), 0);
    assert!(ring.snapshot().is_empty());
}

#[test]
fn history_keeps_insertion_order_below_capacity() {
    let mut ring = CpuHistory::new();
    for sample in [100u32, 200, 300] {
        ring.push(sample);
    }
    assert_eq!(ring.snapshot(), vec![100, 200, 300]);
}

#[test]
fn history_length_is_min_of_pushes_and_capacity() {
    let mut ring = CpuHistory::new();
    for n in 0..200u32 {
        assert_eq!(ring.len(), (n as usize).min(60));
        ring.push(n);
    }
    assert_eq!(ring.len(), 60);
}

#[test]
fn history_retains_last_sixty_oldest_first() {
    let mut ring = CpuHistory::new();
    for n in 0..75u32 {
        ring.push(n);
    }
    let expected: Vec<u32> = (15..75).collect();
    assert_eq!(ring.snapshot(), expected);
}

#[test]
fn history_evicts_exactly_one_when_full() {
    let mut ring = CpuHistory::new();
    for n in 0..60u32 {
        ring.push(n);
    }
    ring.push(600);
    assert_eq!(ring.len(), 60);
    let contents = ring.snapshot();
    assert_eq!(contents[0], 1);
    assert_eq!(contents[59], 600);
}

#[test]
fn rate_of_five_hundred_bytes_over_two_seconds() {
    assert_eq!(compute_rate(1000, 1500, 2000), 250);
}

#[test]
fn rate_with_zero_elapsed_is_zero() {
    assert_eq!(compute_rate(1000, 999_999, 0), 0);
}

#[test]
fn rate_on_counter_regression_is_zero() {
    assert_eq!(compute_rate(1000, 800, 2000), 0);
}

#[test]
fn rate_saturates_at_the_counter_width() {
    assert_eq!(compute_rate(0, u64::MAX, 1), u64::MAX);
}

#[test]
fn delta_sums_add_per_interface_counts() {
    assert_eq!(sum_deltas(&vec![]), (0, 0));
    assert_eq!(sum_deltas(&vec![(1, 2), (3, 4), (5, 6)]), (9, 12));
}

#[test]
fn delta_sums_saturate() {
    assert_eq!(sum_deltas(&vec![(u64::MAX, 0), (1, 7)]), (u64::MAX, 7));
}

#[test]
fn sample_updates_rate_after_long_interval() {
    let mut counters = NetworkCounters::baseline(0, 1000, 2000);
    counters.apply_sample(2000, 1500, 2000);
    assert_eq!(counters.rx_rate, 250);
    assert_eq!(counters.tx_rate, 0);
    assert_eq!(counters.total_received, 1500);
    assert_eq!(counters.last_update_ms, 2000);
}

#[test]
fn sample_after_fifty_milliseconds_keeps_previous_rate() {
    let mut counters = NetworkCounters::baseline(0, 1000, 0);
    counters.apply_sample(2000, 1500, 0);
    assert_eq!(counters.rx_rate, 250);
    counters.apply_sample(2050, 1600, 0);
    assert_eq!(counters.rx_rate, 250);
    assert_eq!(counters.total_received, 1600);
    assert_eq!(counters.last_update_ms, 2050);
}

#[test]
fn sample_at_exactly_the_threshold_recomputes() {
    let mut counters = NetworkCounters::baseline(0, 0, 0);
    counters.apply_sample(100, 100, 0);
    assert_eq!(counters.rx_rate, 1000);
}

#[test]
fn sample_on_regression_yields_zero_rate() {
    let mut counters = NetworkCounters::baseline(0, 1000, 1000);
    counters.apply_sample(2000, 800, 900);
    assert_eq!(counters.rx_rate, 0);
    assert_eq!(counters.tx_rate, 0);
    assert_eq!(counters.total_received, 800);
    assert_eq!(counters.total_transmitted, 900);
}

#[test]
fn refresh_due_only_after_full_interval() {
    assert!(due(1200, 0, 1000));
    assert!(!due(1800, 1200, 1000));
    assert!(due(1000, 0, 1000));
    assert!(!due(999, 0, 1000));
    assert!(!due(0, 1000, 1000));
}

#[test]
fn refresh_state_gates_and_resets() {
    let mut gate = RefreshState::new(0, 1000);
    assert!(!gate.is_due(999));
    assert!(gate.is_due(1200));
    gate.mark_refreshed(1200);
    assert!(!gate.is_due(1800));
    assert!(gate.is_due(2200));
}

#[test]
fn band_boundaries() {
    assert_eq!(band_of(499), HealthBand::Normal);
    assert_eq!(band_of(500), HealthBand::Warning);
    assert_eq!(band_of(799), HealthBand::Warning);
    assert_eq!(band_of(800), HealthBand::Critical);
    assert_eq!(band_of(0), HealthBand::Normal);
    assert_eq!(band_of(1000), HealthBand::Critical);
}

#[test]
fn percent_is_zero_for_zero_total() {
    assert_eq!(percent_tenths(0, 0), 0);
}

#[test]
fn percent_is_exact_fixed_point() {
    assert_eq!(percent_tenths(50, 200), 250);
    assert_eq!(percent_tenths(200, 200), 1000);
    assert_eq!(percent_tenths(1, 3), 333);
}

#[test]
fn memory_percentages() {
    let stats = MemoryStats { used: 6 * 1024, total: 8 * 1024, swap_used: 0, swap_total: 1024 };
    assert_eq!(stats.used_percent(), 750);
    assert_eq!(stats.swap_percent(), 0);
}

fn volume(total: u64, available: u64) -> DiskStats {
    DiskStats {
        name: "data".to_string(),
        mount_point: "/data".to_string(),
        total,
        available,
        disk_type: "SSD".to_string(),
        file_system: "ext4".to_string(),
    }
}

#[test]
fn disk_used_saturates_at_zero() {
    assert_eq!(volume(100, 30).used(), 70);
    assert_eq!(volume(100, 100).used(), 0);
    assert_eq!(volume(100, 150).used(), 0);
}

#[test]
fn disk_percent_stays_within_bounds() {
    assert_eq!(volume(0, 0).used_percent(), 0);
    assert_eq!(volume(200, 150).used_percent(), 250);
    assert_eq!(volume(200, 0).used_percent(), 1000);
    assert_eq!(volume(200, 200).used_percent(), 0);
    for available in [0u64, 1, 99, 100, 101, 1000] {
        let tenths = volume(100, available).used_percent();
        assert!(tenths <= 1000);
    }
}
