//! Trusted boundary to the OS counter probe.
//!
//! The probe handles come from the `sysinfo` crate and are opaque here: each
//! wrapper performs one operation of the probe, and its contract states only
//! what that operation's source shows.  What a handle currently holds is modelled by
//! uninterpreted contents functions (`disks_model`, `networks_model`,
//! `mem_used_of`, ...): the accessors of one handle value always agree with
//! each other, while a refresh replaces the handle's contents wholesale.

use vstd::prelude::*;
use vstd::multiset::Multiset;
use crate::stats::DiskKindTag;

verus! {

#[verifier::external_type_specification]
#[verifier::external_body]
pub struct ExSystem(sysinfo::System);

#[verifier::external_type_specification]
#[verifier::external_body]
pub struct ExDisks(sysinfo::Disks);

#[verifier::external_type_specification]
#[verifier::external_body]
pub struct ExDisk(sysinfo::Disk);

#[verifier::external_type_specification]
#[verifier::external_body]
pub struct ExNetworks(sysinfo::Networks);

#[verifier::external_type_specification]
#[verifier::external_body]
pub struct ExNetworkData(sysinfo::NetworkData);

/// Used RAM, in bytes, as cached in a probe value.
pub uninterp spec fn mem_used_of(system: sysinfo::System) -> u64;

/// RAM size, in bytes, as cached in a probe value.
pub uninterp spec fn mem_total_of(system: sysinfo::System) -> u64;

/// Used swap, in bytes, as cached in a probe value.
pub uninterp spec fn swap_used_of(system: sysinfo::System) -> u64;

/// Swap size, in bytes, as cached in a probe value.
pub uninterp spec fn swap_total_of(system: sysinfo::System) -> u64;

/// One volume as cached in a probe value.
pub ghost struct DiskModel {
    pub name: Seq<char>,
    pub mount_point: Seq<char>,
    pub total: u64,
    pub available: u64,
    pub kind: DiskKindTag,
    pub file_system: Seq<char>,
}

/// The list of volumes a probe value holds, in the probe's own order.
pub uninterp spec fn disks_model(disks: sysinfo::Disks) -> Seq<DiskModel>;

/// The per-interface byte counts a probe value holds, received and
/// transmitted since the interface's previous refresh.  The underlying map
/// is iterated in no fixed order, so only the collection itself is named.
pub uninterp spec fn networks_model(networks: sysinfo::Networks) -> Multiset<(u64, u64)>;

/// Relies on sysinfo::System::new_all: a probe handle with all data loaded.
#[verifier::external_body]
pub(crate) fn system_new() -> sysinfo::System {
    sysinfo::System::new_all()
}

/// Relies on sysinfo::System::refresh_all: re-reads every OS counter into
/// the handle.  What comes back depends on the machine, so nothing is
/// claimed of the new contents.
#[verifier::external_body]
pub(crate) fn system_refresh_all(system: &mut sysinfo::System) {
    system.refresh_all()
}

/// Relies on sysinfo::System::refresh_cpu_all: re-reads the CPU counters.
#[verifier::external_body]
pub(crate) fn system_refresh_cpu(system: &mut sysinfo::System) {
    system.refresh_cpu_all()
}

/// Relies on sysinfo::System::refresh_memory: re-reads RAM and swap counters.
#[verifier::external_body]
pub(crate) fn system_refresh_memory(system: &mut sysinfo::System) {
    system.refresh_memory()
}

/// Relies on sysinfo::System::used_memory: the used RAM cached in the handle.
#[verifier::external_body]
pub(crate) fn system_used_memory(system: &sysinfo::System) -> (bytes: u64)
    ensures
        bytes == mem_used_of(*system),
{
    system.used_memory()
}

/// Relies on sysinfo::System::total_memory: the RAM size cached in the handle.
#[verifier::external_body]
pub(crate) fn system_total_memory(system: &sysinfo::System) -> (bytes: u64)
    ensures
        bytes == mem_total_of(*system),
{
    system.total_memory()
}

/// Relies on sysinfo::System::used_swap: the used swap cached in the handle.
#[verifier::external_body]
pub(crate) fn system_used_swap(system: &sysinfo::System) -> (bytes: u64)
    ensures
        bytes == swap_used_of(*system),
{
    system.used_swap()
}

/// Relies on sysinfo::System::total_swap: the swap size cached in the handle.
#[verifier::external_body]
pub(crate) fn system_total_swap(system: &sysinfo::System) -> (bytes: u64)
    ensures
        bytes == swap_total_of(*system),
{
    system.total_swap()
}

/// Relies on sysinfo::System::uptime: seconds since boot, read from the OS
/// at call time, so nothing is claimed of the value.
#[verifier::external_body]
pub(crate) fn uptime_read() -> u64 {
    sysinfo::System::uptime()
}

/// Relies on sysinfo::Disks::new_with_refreshed_list: a handle holding the
/// volumes found on the machine.
#[verifier::external_body]
pub(crate) fn disks_new() -> sysinfo::Disks {
    sysinfo::Disks::new_with_refreshed_list()
}

/// Relies on sysinfo::Disks::refresh: re-reads every volume's counters.
#[verifier::external_body]
pub(crate) fn disks_refresh(disks: &mut sysinfo::Disks) {
    disks.refresh(false)
}

/// Relies on sysinfo::Disks::list: how many volumes the handle holds.
#[verifier::external_body]
pub(crate) fn disks_len(disks: &sysinfo::Disks) -> (n: usize)
    ensures
        n == disks_model(*disks).len(),
{
    disks.list().len()
}

/// Relies on sysinfo::Disk::name: the volume's name, lossily decoded.
#[verifier::external_body]
pub(crate) fn disk_name(disks: &sysinfo::Disks, i: usize) -> (name: String)
    requires
        i < disks_model(*disks).len(),
    ensures
        name@ == disks_model(*disks)[i as int].name,
{
    disks.list()[i].name().to_string_lossy().to_string()
}

/// Relies on sysinfo::Disk::mount_point: the mount path, lossily decoded.
#[verifier::external_body]
pub(crate) fn disk_mount_point(disks: &sysinfo::Disks, i: usize) -> (path: String)
    requires
        i < disks_model(*disks).len(),
    ensures
        path@ == disks_model(*disks)[i as int].mount_point,
{
    disks.list()[i].mount_point().to_string_lossy().to_string()
}

/// Relies on sysinfo::Disk::total_space: the volume size in bytes.
#[verifier::external_body]
pub(crate) fn disk_total_space(disks: &sysinfo::Disks, i: usize) -> (bytes: u64)
    requires
        i < disks_model(*disks).len(),
    ensures
        bytes == disks_model(*disks)[i as int].total,
{
    disks.list()[i].total_space()
}

/// Relies on sysinfo::Disk::available_space: the available bytes.
#[verifier::external_body]
pub(crate) fn disk_available_space(disks: &sysinfo::Disks, i: usize) -> (bytes: u64)
    requires
        i < disks_model(*disks).len(),
    ensures
        bytes == disks_model(*disks)[i as int].available,
{
    disks.list()[i].available_space()
}

/// Relies on sysinfo::Disk::kind: the volume kind, with every kind other
/// than HDD and SSD reported as unknown.
#[verifier::external_body]
pub(crate) fn disk_kind(disks: &sysinfo::Disks, i: usize) -> (kind: DiskKindTag)
    requires
        i < disks_model(*disks).len(),
    ensures
        kind == disks_model(*disks)[i as int].kind,
{
    match disks.list()[i].kind() {
        sysinfo::DiskKind::HDD => DiskKindTag::Hdd,
        sysinfo::DiskKind::SSD => DiskKindTag::Ssd,
        sysinfo::DiskKind::Unknown(_) => DiskKindTag::Unknown,
    }
}

/// Relies on sysinfo::Disk::file_system: the filesystem name, lossily
/// decoded.
#[verifier::external_body]
pub(crate) fn disk_file_system(disks: &sysinfo::Disks, i: usize) -> (name: String)
    requires
        i < disks_model(*disks).len(),
    ensures
        name@ == disks_model(*disks)[i as int].file_system,
{
    disks.list()[i].file_system().to_string_lossy().to_string()
}

/// Relies on sysinfo::Networks::new_with_refreshed_list: a handle holding
/// the machine's network interfaces.
#[verifier::external_body]
pub(crate) fn networks_new() -> sysinfo::Networks {
    sysinfo::Networks::new_with_refreshed_list()
}

/// Relies on sysinfo::Networks::refresh: re-reads every interface's
/// counters; each interface's received/transmitted counts restart from the
/// instant of this call.
#[verifier::external_body]
pub(crate) fn networks_refresh(networks: &mut sysinfo::Networks) {
    networks.refresh(false)
}

/// Relies on sysinfo::Networks::list and sysinfo::NetworkData::received /
/// transmitted: hands out each interface's byte counts since its previous
/// refresh.  The map's iteration order is arbitrary, so only the collection
/// of pairs is promised.
#[verifier::external_body]
pub(crate) fn interface_deltas(networks: &sysinfo::Networks) -> (deltas: Vec<(u64, u64)>)
    ensures
        deltas@.to_multiset() == networks_model(*networks),
{
    let mut deltas = Vec::new();
    for (_name, data) in networks.list() {
        deltas.push((data.received(), data.transmitted()));
    }
    deltas
}

} // verus!
