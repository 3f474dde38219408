//! Memory budgets.
//!
//! A budget is the triple (total, used, free). Whatever a source reports,
//! the returned triple always satisfies `used <= total` and
//! `free == total - used`: a used figure above total is clamped down (the
//! platform reported an inconsistency, which is not an error), so free
//! saturates at zero rather than underflowing.

use vstd::prelude::*;
use crate::gpu::spec_budget_wf;

verus! {

/// The used figure of a budget: the raw reading, clamped to total.
pub open spec fn spec_budget_used(total: u64, used_raw: u64) -> u64 {
    if used_raw > total {
        total
    } else {
        used_raw
    }
}

/// The free figure of a budget: exactly what the clamped used figure leaves.
pub open spec fn spec_budget_free(total: u64, used_raw: u64) -> u64 {
    (total - spec_budget_used(total, used_raw)) as u64
}

/// The total memory of an adapter from the components one source reports:
/// integrated adapters count dedicated plus shared memory (saturating),
/// discrete adapters count dedicated memory only.
pub open spec fn spec_total_memory(is_integrated: bool, dedicated: u64, shared: u64) -> u64 {
    if is_integrated {
        if dedicated + shared > u64::MAX {
            u64::MAX
        } else {
            (dedicated + shared) as u64
        }
    } else {
        dedicated
    }
}

/// Turns a total and a raw used reading into the (used, free) pair of a
/// well-formed budget.
pub fn make_budget(total: u64, used_raw: u64) -> (r: (u64, u64))
    ensures
        r.0 == spec_budget_used(total, used_raw),
        r.1 == spec_budget_free(total, used_raw),
        spec_budget_wf(total, r.0, r.1),
{
    let used: u64 = if used_raw > total {
        total
    } else {
        used_raw
    };
    (used, total - used)
}

/// Computes an adapter's total memory from the dedicated and shared
/// components one source reported.
pub fn total_from_components(is_integrated: bool, dedicated: u64, shared: u64) -> (r: u64)
    ensures
        r == spec_total_memory(is_integrated, dedicated, shared),
{
    if is_integrated {
        if dedicated <= u64::MAX - shared {
            dedicated + shared
        } else {
            u64::MAX
        }
    } else {
        dedicated
    }
}

/// Law: every budget satisfies the saturating invariant, whatever raw used
/// figure came in: total is at least used, and free is exactly the
/// difference.
pub proof fn lemma_budget_never_underflows(total: u64, used_raw: u64)
    ensures
        spec_budget_used(total, used_raw) <= total,
        spec_budget_free(total, used_raw) == total - spec_budget_used(total, used_raw),
        spec_budget_wf(total, spec_budget_used(total, used_raw), spec_budget_free(total, used_raw)),
{
}

/// Law: for an integrated adapter whose components do not overflow, total is
/// exactly the dedicated plus the shared component.
pub proof fn lemma_integrated_total(dedicated: u64, shared: u64)
    requires
        dedicated + shared <= u64::MAX,
    ensures
        spec_total_memory(true, dedicated, shared) == dedicated + shared,
{
}

/// Law: for a discrete adapter, total is the dedicated component only,
/// whatever the shared component reports.
pub proof fn lemma_discrete_total(dedicated: u64, shared: u64)
    ensures
        spec_total_memory(false, dedicated, shared) == dedicated,
{
}

} // verus!
