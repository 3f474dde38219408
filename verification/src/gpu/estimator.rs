//! Memory estimation.
//!
//! Invoked only for adapters whose platform offers no direct free/used
//! readout. On unified-memory architectures the GPU shares the system pool,
//! so free GPU memory is taken as the free system memory (clamped to the
//! adapter's total). Otherwise the only available counter is the adapter's
//! allocated size, which under-reports resident memory on the one platform
//! that needs this path, so it is halved before it is subtracted: a
//! documented, deliberately conservative approximation, not a measurement.

use vstd::prelude::*;

verus! {

/// The divisor applied to the allocated-size counter to compensate for its
/// under-reporting. An approximation tuned empirically, kept as a named
/// constant rather than treated as ground truth.
pub const ALLOCATED_UNDERREPORT_DIVISOR: u64 = 2;

/// The estimated raw used figure of an adapter without a direct readout.
/// Unified memory: what the free system memory leaves of the total.
/// Otherwise: the halved allocated counter, clamped to the total.
pub open spec fn spec_estimated_used(
    is_unified: bool,
    total: u64,
    allocated: u64,
    system_free: u64,
) -> u64 {
    if is_unified {
        if system_free > total {
            0
        } else {
            (total - system_free) as u64
        }
    } else {
        let half = allocated / ALLOCATED_UNDERREPORT_DIVISOR;
        if half > total {
            total
        } else {
            half
        }
    }
}

/// Estimates the raw used figure for an adapter without a direct readout.
pub fn estimate_used(is_unified: bool, total: u64, allocated: u64, system_free: u64) -> (r: u64)
    ensures
        r == spec_estimated_used(is_unified, total, allocated, system_free),
        r <= total,
{
    if is_unified {
        if system_free > total {
            0
        } else {
            total - system_free
        }
    } else {
        let half: u64 = allocated / ALLOCATED_UNDERREPORT_DIVISOR;
        if half > total {
            total
        } else {
            half
        }
    }
}

/// Law: on unified memory the estimate leaves exactly the free system
/// memory, clamped to the adapter's total.
pub proof fn lemma_unified_estimate_tracks_system_free(
    total: u64,
    allocated: u64,
    system_free: u64,
)
    ensures
        total - spec_estimated_used(true, total, allocated, system_free) == if system_free > total {
            total as int
        } else {
            system_free as int
        },
{
}

} // verus!
