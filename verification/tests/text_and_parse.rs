//! Text rendering, probe-output parsing, and the boot-time label.

use rust_tui_monitor::info::{boot_time_label, format_uptime};
use rust_tui_monitor::parse::{parse_audio_output, parse_display_output};
use rust_tui_monitor::stats::{kind_label, DiskKindTag};
use rust_tui_monitor::text::{label_or_unknown, u64_to_string};

#[test]
fn decimal_rendering() {
    assert_eq!(u64_to_string(0), "0");
    assert_eq!(u64_to_string(7), "7");
    assert_eq!(u64_to_string(10), "10");
    assert_eq!(u64_to_string(1234567890), "1234567890");
    assert_eq!(u64_to_string(u64::MAX), "18446744073709551615");
}

#[test]
fn uptime_under_an_hour_shows_minutes_only() {
    assert_eq!(format_uptime(0), "0m");
    assert_eq!(format_uptime(59), "0m");
    assert_eq!(format_uptime(60), "1m");
    assert_eq!(format_uptime(3599), "59m");
}

#[test]
fn uptime_under_a_day_shows_hours_and_minutes() {
    assert_eq!(format_uptime(3600), "1h 0m");
    assert_eq!(format_uptime(3660), "1h 1m");
    assert_eq!(format_uptime(86399), "23h 59m");
}

#[test]
fn uptime_with_days_shows_all_units() {
    assert_eq!(format_uptime(86400), "1d 0h 0m");
    assert_eq!(format_uptime(2 * 86400 + 3 * 3600 + 4 * 60 + 5), "2d 3h 4m");
}

#[test]
fn boot_time_renders_utc_date() {
    assert_eq!(boot_time_label(1_700_000_000, 0), "2023-11-14 22:13:20");
    assert_eq!(boot_time_label(1_700_000_000, 100_000), "2023-11-13 18:26:40");
}

#[test]
fn boot_time_saturates_at_epoch() {
    assert_eq!(boot_time_label(100, 500), "1970-01-01 00:00:00");
}

#[test]
fn unknown_label_for_missing_values() {
    assert_eq!(label_or_unknown(Some("zen".to_string())), "zen");
    assert_eq!(label_or_unknown(None), "Unknown");
}

#[test]
fn volume_kind_labels() {
    assert_eq!(kind_label(DiskKindTag::Hdd), "HDD");
    assert_eq!(kind_label(DiskKindTag::Ssd), "SSD");
    assert_eq!(kind_label(DiskKindTag::Unknown), "Unknown");
}

#[test]
fn display_output_takes_marked_mode() {
    let output = "Screen 0: minimum 320 x 200, current 1920 x 1080\n\
                  HDMI-1 connected primary 1920x1080+0+0\n\
                  \x20  1920x1080     60.00*+  59.94\n\
                  \x20  1280x720      60.00\n";
    let info = parse_display_output(output);
    assert_eq!(info.resolution, "1920x1080");
    assert_eq!(info.refresh_rate, "60.00");
}

#[test]
fn display_output_without_marker_is_unknown() {
    let output = "HDMI-1 connected\n   1920x1080   60.00\n";
    let info = parse_display_output(output);
    assert_eq!(info.resolution, "Unknown");
    assert_eq!(info.refresh_rate, "Unknown");
}

#[test]
fn display_output_skips_marked_line_with_one_token() {
    let output = "*\n   1024x768  75.00*\n";
    let info = parse_display_output(output);
    assert_eq!(info.resolution, "1024x768");
    assert_eq!(info.refresh_rate, "75.00");
}

#[test]
fn display_output_empty_is_unknown() {
    let info = parse_display_output("");
    assert_eq!(info.resolution, "Unknown");
    assert_eq!(info.refresh_rate, "Unknown");
}

#[test]
fn audio_output_takes_second_token_of_first_line() {
    let output = "0\talsa_output.pci-0000_00_1f.3.analog-stereo\tmodule-alsa-card.c\ts16le\n\
                  1\tother_sink\tmodule-alsa-card.c\ts16le\n";
    let info = parse_audio_output(output);
    assert_eq!(info.default_device, "alsa_output.pci-0000_00_1f.3.analog-stereo");
    assert!(info.output_devices.is_empty());
}

#[test]
fn audio_output_with_one_token_is_unknown() {
    assert_eq!(parse_audio_output("sink\n").default_device, "Unknown");
    assert_eq!(parse_audio_output("").default_device, "Unknown");
}
