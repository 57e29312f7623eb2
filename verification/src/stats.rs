//! Snapshot data model: CPU, memory and per-volume readings.
//!
//! Each snapshot is immutable once captured; percentages are derived on
//! read, in tenths of a percent, and never stored.

use vstd::prelude::*;

verus! {

/// Usage as tenths of a percent of a total: `0` when the total is zero,
/// never above `1000` while the used part is within the total.
pub open spec fn spec_percent_tenths(used: u64, total: u64) -> u32 {
    if total == 0 {
        0u32
    } else {
        (used * 1000 / total as int) as u32
    }
}

/// Derives a usage percentage, in tenths of a percent, from a used amount
/// and a total.  A zero total yields `0` rather than a division error.
pub fn percent_tenths(used: u64, total: u64) -> (tenths: u32)
    requires
        used <= total,
    ensures
        tenths == spec_percent_tenths(used, total),
        tenths <= 1000,
{
    if total == 0 {
        0
    } else {
        let scaled: u128 = (used as u128) * 1000 / (total as u128);
        assert(used * 1000 / total as int <= 1000) by (nonlinear_arith)
            requires
                used <= total,
                total > 0,
        ;
        scaled as u32
    }
}

/// One point-in-time CPU reading: the global usage and one value per
/// logical core, all in tenths of a percent.
#[derive(Clone, Debug)]
pub struct CpuStats {
    pub global_usage: u32,
    pub per_core: Vec<u32>,
}

/// Mathematical content of a CPU snapshot.
pub ghost struct CpuStatsView {
    pub global_usage: u32,
    pub per_core: Seq<u32>,
}

impl View for CpuStats {
    type V = CpuStatsView;

    open spec fn view(&self) -> CpuStatsView {
        CpuStatsView { global_usage: self.global_usage, per_core: self.per_core@ }
    }
}

/// One point-in-time memory reading, in bytes.  The source data keeps the
/// used part within the total; the probe enforces it on capture.
#[derive(Clone, Copy, Debug, PartialEq, Eq, Structural)]
pub struct MemoryStats {
    pub used: u64,
    pub total: u64,
    pub swap_used: u64,
    pub swap_total: u64,
}

impl MemoryStats {
    /// The used amounts never exceed their totals.
    pub open spec fn wf(&self) -> bool {
        self.used <= self.total && self.swap_used <= self.swap_total
    }

    /// RAM usage in tenths of a percent; `0` when no total is known.
    pub fn used_percent(&self) -> (tenths: u32)
        requires
            self.wf(),
        ensures
            tenths == spec_percent_tenths(self.used, self.total),
            tenths <= 1000,
    {
        percent_tenths(self.used, self.total)
    }

    /// Swap usage in tenths of a percent; `0` when no swap exists.
    pub fn swap_percent(&self) -> (tenths: u32)
        requires
            self.wf(),
        ensures
            tenths == spec_percent_tenths(self.swap_used, self.swap_total),
            tenths <= 1000,
    {
        percent_tenths(self.swap_used, self.swap_total)
    }
}

/// Kind of a storage volume as the probe reports it.
#[derive(Clone, Copy, Debug, PartialEq, Eq, Structural)]
pub enum DiskKindTag {
    Hdd,
    Ssd,
    Unknown,
}

/// Display label of a volume kind.
pub open spec fn spec_kind_label(kind: DiskKindTag) -> Seq<char> {
    match kind {
        DiskKindTag::Hdd => "HDD"@,
        DiskKindTag::Ssd => "SSD"@,
        DiskKindTag::Unknown => "Unknown"@,
    }
}

/// Label of a volume kind: `"HDD"`, `"SSD"` or `"Unknown"`.
pub fn kind_label(kind: DiskKindTag) -> (label: String)
    ensures
        label@ == spec_kind_label(kind),
{
    match kind {
        DiskKindTag::Hdd => String::from_str("HDD"),
        DiskKindTag::Ssd => String::from_str("SSD"),
        DiskKindTag::Unknown => String::from_str("Unknown"),
    }
}

/// One point-in-time reading of a storage volume, in bytes.
#[derive(Clone, Debug)]
pub struct DiskStats {
    pub name: String,
    pub mount_point: String,
    pub total: u64,
    pub available: u64,
    pub disk_type: String,
    pub file_system: String,
}

/// Mathematical content of a volume snapshot.
pub ghost struct DiskStatsView {
    pub name: Seq<char>,
    pub mount_point: Seq<char>,
    pub total: u64,
    pub available: u64,
    pub disk_type: Seq<char>,
    pub file_system: Seq<char>,
}

impl View for DiskStats {
    type V = DiskStatsView;

    open spec fn view(&self) -> DiskStatsView {
        DiskStatsView {
            name: self.name@,
            mount_point: self.mount_point@,
            total: self.total,
            available: self.available,
            disk_type: self.disk_type@,
            file_system: self.file_system@,
        }
    }
}

impl DiskStats {
    /// Used bytes: the total minus the available part, floored at zero to
    /// tolerate a momentary inconsistency between the two readings.
    pub fn used(&self) -> (used: u64)
        ensures
            used == self.total.saturating_sub(self.available),
            used <= self.total,
    {
        self.total.saturating_sub(self.available)
    }

    /// Volume usage in tenths of a percent: `0` when the total is zero, and
    /// never above `1000` (that is, 100.0%).
    pub fn used_percent(&self) -> (tenths: u32)
        ensures
            tenths == spec_percent_tenths(self.total.saturating_sub(self.available), self.total),
            tenths <= 1000,
            self.total == 0 ==> tenths == 0,
    {
        percent_tenths(self.used(), self.total)
    }
}

} // verus!
