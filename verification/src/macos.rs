//! Memory readers shaped after the unified-memory platform's surface.
//!
//! The GPU record itself comes from the platform's device query; the list
//! wrapping and the CPU-side figures are computed here.

use vstd::prelude::*;
use crate::gpu::{GPUData, GpuError, used_from_total_free};

verus! {

/// Entry point for the unified-memory platform's readers.
pub struct MacMemoryUsage;

impl MacMemoryUsage {
    /// The single-adapter list: this platform enumerates exactly one
    /// device, so the list holds exactly the record handed in.
    pub fn get_gpus_list(info: GPUData) -> (r: Vec<GPUData>)
        ensures
            r@.len() == 1,
            r@[0] == info,
    {
        let mut results: Vec<GPUData> = Vec::new();
        results.push(info);
        results
    }

    /// Total system memory as the platform reports it, in KiB.
    pub fn total_cpu_memory() -> (r: Result<u64, GpuError>)
        ensures
            r matches Err(e) ==> e == GpuError::PlatformApiUnavailable,
    {
        match crate::sysquery::read_mem_info() {
            Some(m) => Ok(m.0),
            None => Err(GpuError::PlatformApiUnavailable),
        }
    }

    /// Used system memory: what the available figure leaves of the total,
    /// never an underflow.
    pub fn current_cpu_memory_usage() -> (r: Result<u64, GpuError>)
        ensures
            r matches Err(e) ==> e == GpuError::PlatformApiUnavailable,
    {
        match crate::sysquery::read_mem_info() {
            Some(m) => Ok(used_from_total_free(m.0, m.2)),
            None => Err(GpuError::PlatformApiUnavailable),
        }
    }

    /// Available system memory as the platform reports it, in KiB.
    pub fn current_cpu_memory_free() -> (r: Result<u64, GpuError>)
        ensures
            r matches Err(e) ==> e == GpuError::PlatformApiUnavailable,
    {
        match crate::sysquery::read_mem_info() {
            Some(m) => Ok(m.2),
            None => Err(GpuError::PlatformApiUnavailable),
        }
    }

    /// Total and free swap as the platform reports them, in KiB.
    pub fn current_cpu_memory_swap() -> (r: Result<(u64, u64), GpuError>)
        ensures
            r matches Err(e) ==> e == GpuError::PlatformApiUnavailable,
    {
        match crate::sysquery::read_mem_info() {
            Some(m) => Ok((m.3, m.4)),
            None => Err(GpuError::PlatformApiUnavailable),
        }
    }
}

} // verus!
