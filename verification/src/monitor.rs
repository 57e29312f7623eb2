//! The aggregator: owns the probe handles, the last recorded CPU sample and
//! the CPU history ring, and is the single integration point for refreshes.
//!
//! A refresh re-reads the OS counters; the caller then records the freshly
//! observed CPU sample and pushes it into the history — two ordered steps,
//! so the history never records a stale value.  All accessors are pure
//! reads over the most recent snapshot.

use vstd::prelude::*;
use crate::history::{CpuHistory, spec_push};
use crate::probe;
use crate::probe::{DiskModel, disks_model, mem_used_of, mem_total_of, swap_used_of, swap_total_of};
use crate::stats::{CpuStats, CpuStatsView, DiskStats, DiskStatsView, MemoryStats, kind_label, spec_kind_label};

verus! {

/// A volume snapshot carries exactly what the probe reported, with the kind
/// rendered as its display label.
pub open spec fn stats_match_model(stats: DiskStatsView, model: DiskModel) -> bool {
    &&& stats.name == model.name
    &&& stats.mount_point == model.mount_point
    &&& stats.total == model.total
    &&& stats.available == model.available
    &&& stats.disk_type == spec_kind_label(model.kind)
    &&& stats.file_system == model.file_system
}

/// Owns the live probe handles and the CPU history; the unit every other
/// component reads from.
pub struct SystemMonitor {
    system: sysinfo::System,
    disks: sysinfo::Disks,
    cpu: CpuStats,
    cpu_history: CpuHistory,
}

impl SystemMonitor {
    /// The probe handle for CPU and memory counters.
    pub closed spec fn spec_system(&self) -> sysinfo::System {
        self.system
    }

    /// The probe handle for volume counters.
    pub closed spec fn spec_disks(&self) -> sysinfo::Disks {
        self.disks
    }

    /// The last recorded CPU sample.
    pub closed spec fn spec_cpu(&self) -> CpuStatsView {
        self.cpu@
    }

    /// The retained CPU usage history, oldest first.
    pub closed spec fn history(&self) -> Seq<u32> {
        self.cpu_history@
    }

    /// The history ring is within its capacity.
    pub closed spec fn inv(&self) -> bool {
        self.cpu_history.inv()
    }

    /// Fresh aggregator: probe handles loaded, no CPU sample recorded yet,
    /// empty history.
    pub fn new() -> (monitor: Self)
        ensures
            monitor.inv(),
            monitor.history() == Seq::<u32>::empty(),
            monitor.spec_cpu().global_usage == 0,
            monitor.spec_cpu().per_core == Seq::<u32>::empty(),
    {
        let mut system = probe::system_new();
        probe::system_refresh_all(&mut system);
        SystemMonitor {
            system,
            disks: probe::disks_new(),
            cpu: CpuStats { global_usage: 0, per_core: Vec::new() },
            cpu_history: CpuHistory::new(),
        }
    }

    /// Re-reads the CPU, memory and volume counters in place.  Repeated
    /// calls accumulate nothing: each one replaces the probe's snapshot.
    /// The recorded CPU sample and the history are untouched.
    pub fn refresh(&mut self)
        requires
            old(self).inv(),
        ensures
            final(self).inv(),
            final(self).spec_cpu() == old(self).spec_cpu(),
            final(self).history() == old(self).history(),
    {
        probe::system_refresh_cpu(&mut self.system);
        probe::system_refresh_memory(&mut self.system);
        probe::disks_refresh(&mut self.disks);
    }

    /// Borrow of the probe handle, for reading values the snapshot types do
    /// not carry.
    pub fn probe_handle(&self) -> (handle: &sysinfo::System)
        ensures
            *handle == self.spec_system(),
    {
        &self.system
    }

    /// Records the CPU sample observed by the latest refresh.  Everything
    /// else, the history included, is untouched.
    pub fn record_cpu_sample(&mut self, sample: CpuStats)
        requires
            old(self).inv(),
        ensures
            final(self).inv(),
            final(self).spec_cpu() == sample@,
            final(self).history() == old(self).history(),
            final(self).spec_system() == old(self).spec_system(),
            final(self).spec_disks() == old(self).spec_disks(),
    {
        self.cpu = sample;
    }

    /// Pushes the recorded global CPU usage into the history ring; once the
    /// ring holds 60 samples, the oldest is evicted.  Meant to follow a
    /// refresh and a freshly recorded sample, never to run independently.
    pub fn update_cpu_history(&mut self)
        requires
            old(self).inv(),
        ensures
            final(self).inv(),
            final(self).history() == spec_push(old(self).history(), old(self).spec_cpu().global_usage),
            final(self).spec_cpu() == old(self).spec_cpu(),
            final(self).spec_system() == old(self).spec_system(),
            final(self).spec_disks() == old(self).spec_disks(),
    {
        self.cpu_history.push(self.cpu.global_usage);
    }

    /// The most recent CPU sample: global usage and per-core usage, in
    /// tenths of a percent.
    pub fn cpu_stats(&self) -> (stats: CpuStats)
        ensures
            stats@ == self.spec_cpu(),
    {
        let mut per_core: Vec<u32> = Vec::new();
        let mut i: usize = 0;
        while i < self.cpu.per_core.len()
            invariant
                i <= self.cpu.per_core@.len(),
                per_core@ == self.cpu.per_core@.subrange(0, i as int),
            decreases self.cpu.per_core@.len() - i,
        {
            per_core.push(self.cpu.per_core[i]);
            i = i + 1;
        }
        proof {
            assert(per_core@ =~= self.cpu.per_core@);
        }
        CpuStats { global_usage: self.cpu.global_usage, per_core }
    }

    /// The retained CPU usage history, oldest first.
    pub fn cpu_history(&self) -> (history: Vec<u32>)
        ensures
            history@ == self.history(),
    {
        self.cpu_history.snapshot()
    }

    /// The memory counters of the latest refresh.  The used amounts are
    /// clamped to their totals, so the snapshot is well-formed even if the
    /// probe momentarily reports more used than total.
    pub fn memory_stats(&self) -> (stats: MemoryStats)
        ensures
            stats.wf(),
            stats.total == mem_total_of(self.spec_system()),
            stats.swap_total == swap_total_of(self.spec_system()),
            stats.used == if mem_used_of(self.spec_system()) <= mem_total_of(self.spec_system()) {
                mem_used_of(self.spec_system())
            } else {
                mem_total_of(self.spec_system())
            },
            stats.swap_used == if swap_used_of(self.spec_system()) <= swap_total_of(
                self.spec_system(),
            ) {
                swap_used_of(self.spec_system())
            } else {
                swap_total_of(self.spec_system())
            },
    {
        let total = probe::system_total_memory(&self.system);
        let used_raw = probe::system_used_memory(&self.system);
        let swap_total = probe::system_total_swap(&self.system);
        let swap_used_raw = probe::system_used_swap(&self.system);
        MemoryStats {
            used: if used_raw <= total { used_raw } else { total },
            total,
            swap_used: if swap_used_raw <= swap_total { swap_used_raw } else { swap_total },
            swap_total,
        }
    }

    /// One snapshot per volume the probe currently sees, in the probe's own
    /// order, each carrying exactly the reported name, mount point, sizes,
    /// kind label and filesystem.
    pub fn disk_stats(&self) -> (stats: Vec<DiskStats>)
        ensures
            stats@.len() == disks_model(self.spec_disks()).len(),
            forall|i: int|
                0 <= i < stats@.len() ==> stats_match_model(
                    #[trigger] stats@[i]@,
                    disks_model(self.spec_disks())[i],
                ),
    {
        let n = probe::disks_len(&self.disks);
        let mut stats: Vec<DiskStats> = Vec::new();
        let mut i: usize = 0;
        while i < n
            invariant
                i <= n,
                n == disks_model(self.spec_disks()).len(),
                stats@.len() == i,
                forall|j: int|
                    0 <= j < i ==> stats_match_model(
                        #[trigger] stats@[j]@,
                        disks_model(self.spec_disks())[j],
                    ),
            decreases n - i,
        {
            let kind = probe::disk_kind(&self.disks, i);
            stats.push(
                DiskStats {
                    name: probe::disk_name(&self.disks, i),
                    mount_point: probe::disk_mount_point(&self.disks, i),
                    total: probe::disk_total_space(&self.disks, i),
                    available: probe::disk_available_space(&self.disks, i),
                    disk_type: kind_label(kind),
                    file_system: probe::disk_file_system(&self.disks, i),
                },
            );
            i = i + 1;
        }
        stats
    }
}

} // verus!
