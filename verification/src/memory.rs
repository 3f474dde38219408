//! System memory figures.

use vstd::prelude::*;

verus! {

/// Entry point for the system memory queries.
pub struct MemoryUsage;

#[derive(Debug, Clone, PartialEq)]
pub struct MemoryData {
    pub total: u64,
    pub free: u64,
    /// Used memory also includes gpu memory, in unified memory systems
    pub used: u64,
}

impl MemoryData {
    pub fn new() -> (r: Self)
        ensures
            r.total == 0,
            r.free == 0,
            r.used == 0,
    {
        Self { total: 0, free: 0, used: 0 }
    }

    pub fn new_with_values(total: u64, free: u64, used: u64) -> (r: Self)
        ensures
            r.total == total,
            r.free == free,
            r.used == used,
    {
        Self { total, free, used }
    }
}

impl MemoryUsage {
    /// One snapshot of the machine's RAM figures, in bytes.
    pub fn get_system_memory_info() -> (r: MemoryData) {
        let sys = crate::sysquery::sys_new_with_ram();
        MemoryData::new_with_values(
            crate::sysquery::sys_total_memory(&sys),
            crate::sysquery::sys_free_memory(&sys),
            crate::sysquery::sys_used_memory(&sys),
        )
    }

    /// Total RAM in bytes.
    pub fn total_system_memory() -> (r: u64) {
        let sys = crate::sysquery::sys_new_with_ram();
        crate::sysquery::sys_total_memory(&sys)
    }

    /// Used RAM in bytes.
    pub fn current_system_memory_usage() -> (r: u64) {
        let sys = crate::sysquery::sys_new_with_ram();
        crate::sysquery::sys_used_memory(&sys)
    }

    /// Free RAM in bytes.
    pub fn current_system_memory_free() -> (r: u64) {
        let sys = crate::sysquery::sys_new_with_ram();
        crate::sysquery::sys_free_memory(&sys)
    }

    /// Used and total swap, in bytes.
    pub fn current_system_memory_swap() -> (r: (u64, u64)) {
        let sys = crate::sysquery::sys_new_with_swap();
        (crate::sysquery::sys_used_swap(&sys), crate::sysquery::sys_total_swap(&sys))
    }
}

} // verus!
