//! Trusted bindings to the cross-platform system statistics crates.
//!
//! Every result is a live reading of machine state, so nothing is promised
//! of the values; the verified callers state exactly what they compute from
//! whatever comes back.

use vstd::prelude::*;
use sysinfo::System;

verus! {

#[verifier::external_type_specification]
#[verifier::external_body]
pub struct ExSystem(System);

/// Relies on sysinfo::System::new: an empty snapshot, to be refreshed.
#[verifier::external_body]
pub(crate) fn sys_new() -> (r: System) {
    System::new()
}

/// Relies on sysinfo::System::new_with_specifics, asking for a RAM
/// refresh: a snapshot holding the machine's memory figures.
#[verifier::external_body]
pub(crate) fn sys_new_with_ram() -> (r: System) {
    System::new_with_specifics(
        sysinfo::RefreshKind::nothing().with_memory(
            sysinfo::MemoryRefreshKind::nothing().with_ram(),
        ),
    )
}

/// Relies on sysinfo::System::new_with_specifics, asking for a swap
/// refresh: a snapshot holding the machine's swap figures.
#[verifier::external_body]
pub(crate) fn sys_new_with_swap() -> (r: System) {
    System::new_with_specifics(
        sysinfo::RefreshKind::nothing().with_memory(
            sysinfo::MemoryRefreshKind::nothing().with_swap(),
        ),
    )
}

/// Relies on sysinfo::System::new_with_specifics, asking for a processor
/// refresh: a snapshot holding the machine's processor list.
#[verifier::external_body]
pub(crate) fn sys_new_with_cpu() -> (r: System) {
    System::new_with_specifics(
        sysinfo::RefreshKind::nothing().with_cpu(sysinfo::CpuRefreshKind::everything()),
    )
}

/// Relies on sysinfo::System::refresh_cpu_all: re-reads every processor.
#[verifier::external_body]
pub(crate) fn sys_refresh_cpu_all(s: &mut System) {
    s.refresh_cpu_all();
}

/// Relies on sysinfo::System::cpus: how many logical processors the
/// snapshot holds.
#[verifier::external_body]
pub(crate) fn sys_cpus_len(s: &System) -> (r: usize) {
    s.cpus().len()
}

/// Relies on sysinfo::Cpu::vendor_id: the vendor-id string of the first
/// processor, where the snapshot holds one.
#[verifier::external_body]
pub(crate) fn sys_first_cpu_vendor_id(s: &System) -> (r: Option<String>) {
    match s.cpus().first() {
        Some(c) => Some(c.vendor_id().to_string()),
        None => None,
    }
}

/// Relies on sysinfo::Cpu::brand: the brand string of the first processor,
/// where the snapshot holds one.
#[verifier::external_body]
pub(crate) fn sys_first_cpu_brand(s: &System) -> (r: Option<String>) {
    match s.cpus().first() {
        Some(c) => Some(c.brand().to_string()),
        None => None,
    }
}

/// Relies on sysinfo::System::physical_core_count: the machine's physical
/// core count, where the platform reports one.
#[verifier::external_body]
pub(crate) fn sys_physical_core_count() -> (r: Option<usize>) {
    System::physical_core_count()
}

/// Relies on sysinfo::System::total_memory: total RAM in bytes.
#[verifier::external_body]
pub(crate) fn sys_total_memory(s: &System) -> (r: u64) {
    s.total_memory()
}

/// Relies on sysinfo::System::free_memory: free RAM in bytes.
#[verifier::external_body]
pub(crate) fn sys_free_memory(s: &System) -> (r: u64) {
    s.free_memory()
}

/// Relies on sysinfo::System::used_memory: used RAM in bytes.
#[verifier::external_body]
pub(crate) fn sys_used_memory(s: &System) -> (r: u64) {
    s.used_memory()
}

/// Relies on sysinfo::System::used_swap: used swap in bytes.
#[verifier::external_body]
pub(crate) fn sys_used_swap(s: &System) -> (r: u64) {
    s.used_swap()
}

/// Relies on sysinfo::System::total_swap: total swap in bytes.
#[verifier::external_body]
pub(crate) fn sys_total_swap(s: &System) -> (r: u64) {
    s.total_swap()
}

/// Relies on sys_info::mem_info: the machine's memory figures in KiB, as
/// (total, free, available, swap total, swap free).
#[verifier::external_body]
pub(crate) fn read_mem_info() -> (r: Option<(u64, u64, u64, u64, u64)>) {
    match sys_info::mem_info() {
        Ok(m) => Some((m.total, m.free, m.avail, m.swap_total, m.swap_free)),
        Err(_) => None,
    }
}

/// Relies on sys_info::cpu_num: how many processors the machine reports.
#[verifier::external_body]
pub(crate) fn read_cpu_num() -> (r: Option<u32>) {
    sys_info::cpu_num().ok()
}

} // verus!
