//! Static host identity: names, counts and the formatted uptime and boot
//! instant.  Every metric the machine cannot report resolves to a typed
//! `"Unknown"` default instead of an error.

use vstd::prelude::*;
use crate::probe;
use crate::text::{spec_dec, u64_to_string};

verus! {

/// Primary display properties, as reported by the platform's own tooling.
#[derive(Clone, Debug)]
pub struct DisplayInfo {
    pub resolution: String,
    pub refresh_rate: String,
}

/// Audio output properties, as reported by the platform's own tooling.
#[derive(Clone, Debug)]
pub struct AudioInfo {
    pub default_device: String,
    pub output_devices: Vec<String>,
}

/// Identity of the observed host, captured once at startup.
#[derive(Clone, Debug)]
pub struct SystemInfo {
    pub hostname: String,
    pub os_name: String,
    pub os_version: String,
    pub kernel_version: String,
    pub cpu_name: String,
    pub cpu_cores: usize,
    pub cpu_physical_cores: usize,
    pub cpu_frequency: String,
    pub total_memory: u64,
    pub architecture: String,
    pub username: String,
    pub shell: String,
    pub distribution: String,
    pub display_info: DisplayInfo,
    pub audio_info: AudioInfo,
    pub boot_time: String,
    pub processes_count: usize,
}

/// Uptime rendered as days, hours and minutes, dropping the leading units
/// that are zero: `"3d 4h 5m"`, `"4h 5m"` or `"5m"`.
pub open spec fn spec_uptime_text(secs: u64) -> Seq<char> {
    let days = (secs as int / 86400) as nat;
    let hours = ((secs as int % 86400) / 3600) as nat;
    let minutes = ((secs as int % 3600) / 60) as nat;
    if days > 0 {
        spec_dec(days) + "d "@ + spec_dec(hours) + "h "@ + spec_dec(minutes) + "m"@
    } else if hours > 0 {
        spec_dec(hours) + "h "@ + spec_dec(minutes) + "m"@
    } else {
        spec_dec(minutes) + "m"@
    }
}

/// Renders a duration of whole seconds as days, hours and minutes.
pub fn format_uptime(secs: u64) -> (text: String)
    ensures
        text@ == spec_uptime_text(secs),
{
    let days = secs / 86400;
    let hours = (secs % 86400) / 3600;
    let minutes = (secs % 3600) / 60;
    if days > 0 {
        let mut text = u64_to_string(days);
        text.append("d ");
        let hours_text = u64_to_string(hours);
        text.append(hours_text.as_str());
        text.append("h ");
        let minutes_text = u64_to_string(minutes);
        text.append(minutes_text.as_str());
        text.append("m");
        proof {
            assert(text@ =~= spec_uptime_text(secs));
        }
        text
    } else if hours > 0 {
        let mut text = u64_to_string(hours);
        text.append("h ");
        let minutes_text = u64_to_string(minutes);
        text.append(minutes_text.as_str());
        text.append("m");
        proof {
            assert(text@ =~= spec_uptime_text(secs));
        }
        text
    } else {
        let mut text = u64_to_string(minutes);
        text.append("m");
        proof {
            assert(text@ =~= spec_uptime_text(secs));
        }
        text
    }
}

/// What formatting a Unix timestamp as `%Y-%m-%d %H:%M:%S` in UTC yields;
/// a function of the timestamp alone.
pub uninterp spec fn datetime_text(secs: int) -> Seq<char>;

/// Largest timestamp the boot-time rendering promises a date for; chrono
/// accepts far more, but every reachable boot instant lies below this.
pub const MAX_RENDERED_TIMESTAMP: u64 = 100_000_000_000;

/// Relies on chrono::DateTime::from_timestamp and chrono's `%Y-%m-%d
/// %H:%M:%S` formatter: the rendered UTC date-time of a Unix timestamp.
/// The conversion fails only on a timestamp whose date lies outside
/// chrono's representable years, so any timestamp up to
/// `MAX_RENDERED_TIMESTAMP` (far beyond year 5000) renders.
#[verifier::external_body]
fn timestamp_text(secs: i64) -> (text: Option<String>)
    ensures
        text is Some ==> text->Some_0@ == datetime_text(secs as int),
        0 <= secs <= MAX_RENDERED_TIMESTAMP ==> text is Some,
{
    match chrono::DateTime::from_timestamp(secs, 0) {
        Some(dt) => Some(dt.format("%Y-%m-%d %H:%M:%S").to_string()),
        None => None,
    }
}

/// Renders the boot instant derived from the wall clock and the uptime:
/// the formatted date for every reachable timestamp, the `"Unknown"`
/// default where no date exists.
pub fn boot_time_label(now_unix_secs: u64, uptime_secs: u64) -> (label: String)
    ensures
        now_unix_secs <= MAX_RENDERED_TIMESTAMP ==> label@ == datetime_text(
            now_unix_secs.saturating_sub(uptime_secs) as int,
        ),
        label@ == datetime_text(now_unix_secs.saturating_sub(uptime_secs) as int) || label@
            == "Unknown"@,
{
    let boot_secs = now_unix_secs.saturating_sub(uptime_secs);
    if boot_secs <= i64::MAX as u64 {
        match timestamp_text(boot_secs as i64) {
            Some(text) => text,
            None => String::from_str("Unknown"),
        }
    } else {
        String::from_str("Unknown")
    }
}

impl SystemInfo {
    /// The host's current uptime, rendered as days, hours and minutes.
    /// The duration itself comes from the OS at call time.
    pub fn uptime_string(&self) -> (text: String)
        ensures
            exists|secs: u64| text@ == #[trigger] spec_uptime_text(secs),
    {
        let secs = probe::uptime_read();
        let text = format_uptime(secs);
        proof {
            assert(text@ == spec_uptime_text(secs));
        }
        text
    }
}

} // verus!
