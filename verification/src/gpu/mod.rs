//! GPU discovery and reconciliation.
//!
//! The submodules hold the stages of the pipeline: source merging, vendor
//! detail resolution, memory estimation and ranking. `GPUUsage` exposes the
//! public queries over an [`AdapterSnapshot`], the raw outcome of one walk of
//! the platform's enumeration interfaces.

pub mod budget;
pub mod driver;
pub mod estimator;
pub mod matcher;
pub mod nvml;
pub mod ranking;
pub mod vendor;
pub mod version;

use vstd::prelude::*;
use crate::gpu::budget::{spec_total_memory, total_from_components};
use crate::gpu::driver::{spec_unpack_driver_version, unpack_driver_version};
use crate::gpu::matcher::{merge_sources, spec_merged_entry, AdapterDescriptor, MergedAdapter};
use crate::gpu::ranking::{
    high_pred, lemma_filter_preserves, lemma_filter_singleton, lemma_rank_preserves_len, low_pred,
    rank_gpus, spec_is_ranked, spec_rank,
};
use crate::gpu::vendor::{
    build_canonical_record, find_usage_by_key, query_vendor_details, spec_record_from,
    spec_usage_for, spec_vendor_arch, vendor_to_arch, UsageReading, VendorDetails,
    VENDOR_ID_NVIDIA,
};

verus! {

/// Adapters whose total memory reaches this many bytes (4 GiB) count as
/// high-memory when they are not integrated.
pub const HIGH_MEMORY_BYTES: u64 = 4 * 1024 * 1024 * 1024;

/// Entry point for the GPU queries.
pub struct GPUUsage;

/// A driver version, four 16-bit fields unpacked from one packed 64-bit value.
#[derive(Clone, Copy, Debug, PartialEq, Eq, Structural)]
pub struct DriverVersionData {
    pub major: u64,
    pub minor: u64,
    pub build: u64,
    pub revision: u64,
}

/// One canonical record per adapter, merged from every source that reported
/// on it during a single query call.
#[derive(Debug, Clone, PartialEq)]
pub struct GPUData {
    pub name: String,
    pub architecture: String,
    pub vendor_id: u32,
    pub total_memory: u64,
    pub free_memory: u64,
    /// Used memory also includes cpu memory, in unified memory systems
    pub used_memory: u64,
    pub has_unified_memory: bool,
    pub is_integrated: bool,
    pub adapter_index: u32,
    pub driver_version: DriverVersionData,
}

/// Whether a record counts as a high-memory dedicated adapter; ranking
/// depends on this predicate alone.
pub open spec fn spec_is_high_memory_dedicated(is_integrated: bool, total_memory: u64) -> bool {
    !is_integrated && total_memory >= HIGH_MEMORY_BYTES
}

/// The memory triple of a record is well formed: used never exceeds total and
/// free is exactly what remains.
pub open spec fn spec_budget_wf(total: u64, used: u64, free: u64) -> bool {
    used <= total && free == total - used
}

/// The errors a GPU query can surface. Vendor- and property-level failures
/// never do: they degrade to fallbacks inside the pipeline.
#[derive(Clone, Copy, Debug, PartialEq, Eq, Structural)]
pub enum GpuError {
    NoAdapterFound,
    PlatformApiUnavailable,
}

/// The raw outcome of one walk of the platform's enumeration interfaces,
/// handed to the reconciliation pipeline as plain values.
#[derive(Debug, Clone, PartialEq)]
pub struct AdapterSnapshot {
    /// Whether the primary enumeration interface could be initialised at
    /// all; when it could not, every query fails with
    /// `PlatformApiUnavailable`.
    pub available: bool,
    /// The capability-oriented enumeration, in platform order.
    pub primary: Vec<AdapterDescriptor>,
    /// The display-oriented enumeration, in its own order.
    pub secondary: Vec<AdapterDescriptor>,
    /// Direct free/used readouts, keyed like the descriptors, for the
    /// adapters whose platform reports them.
    pub usages: Vec<UsageReading>,
    /// The machine's free system memory in bytes, feeding the
    /// unified-memory estimate.
    pub system_free_memory: u64,
}

/// The ranking predicate over merged entries: hardware adapters only.
pub open spec fn hw_pred() -> spec_fn(MergedAdapter) -> bool {
    |m: MergedAdapter| m.is_hardware
}

/// The hardware predicate over raw primary descriptors.
pub open spec fn phw_pred() -> spec_fn(AdapterDescriptor) -> bool {
    |p: AdapterDescriptor| p.is_hardware
}

/// How many hardware adapters the primary enumeration reported.
pub open spec fn spec_hw_count(primary: Seq<AdapterDescriptor>) -> nat {
    primary.filter(phw_pred()).len()
}

/// One complete, valid run of the reconciliation pipeline over a snapshot:
/// `ms` is the merged view of the two sources, `ds` the per-adapter vendor
/// outcomes, and `pre` the canonical records of the hardware adapters in
/// enumeration order, before ranking.
pub open spec fn spec_pipeline_outcome(
    snap: AdapterSnapshot,
    ms: Seq<MergedAdapter>,
    ds: Seq<Option<VendorDetails>>,
    pre: Seq<GPUData>,
) -> bool {
    let hw = ms.filter(hw_pred());
    &&& ms.len() == snap.primary@.len()
    &&& (forall|i: int|
        0 <= i < ms.len() ==> #[trigger] spec_merged_entry(
            ms[i],
            snap.primary@[i],
            snap.secondary@,
            i,
        ))
    &&& ds.len() == hw.len()
    &&& pre.len() == hw.len()
    &&& (forall|t: int|
        0 <= t < pre.len() ==> #[trigger] spec_record_from(
            pre[t],
            hw[t],
            ds[t],
            spec_usage_for(snap.usages@, hw[t].key),
            snap.system_free_memory,
        ))
    &&& (forall|t: int|
        0 <= t < pre.len() && (#[trigger] hw[t]).vendor_id != VENDOR_ID_NVIDIA
            ==> ds[t] is None)
}

impl GPUData {
    pub fn new() -> (r: Self)
        ensures
            r.name@ == Seq::<char>::empty(),
            r.architecture@ == Seq::<char>::empty(),
            r.vendor_id == 0,
            r.total_memory == 0,
            r.free_memory == 0,
            r.used_memory == 0,
            !r.has_unified_memory,
            !r.is_integrated,
            r.adapter_index == 0,
            r.driver_version == (DriverVersionData { major: 0, minor: 0, build: 0, revision: 0 }),
    {
        Self {
            name: String::new(),
            architecture: String::new(),
            vendor_id: 0,
            total_memory: 0,
            free_memory: 0,
            used_memory: 0,
            has_unified_memory: false,
            is_integrated: false,
            adapter_index: 0,
            driver_version: DriverVersionData { major: 0, minor: 0, build: 0, revision: 0 },
        }
    }

    pub fn new_with_values(
        name: String,
        architecture: String,
        vendor_id: u32,
        total_memory: u64,
        free_memory: u64,
        used_memory: u64,
        has_unified_memory: bool,
        is_integrated: bool,
        adapter_index: u32,
        driver_version: DriverVersionData,
    ) -> (r: Self)
        ensures
            r.name == name,
            r.architecture == architecture,
            r.vendor_id == vendor_id,
            r.total_memory == total_memory,
            r.free_memory == free_memory,
            r.used_memory == used_memory,
            r.has_unified_memory == has_unified_memory,
            r.is_integrated == is_integrated,
            r.adapter_index == adapter_index,
            r.driver_version == driver_version,
    {
        Self {
            name,
            architecture,
            vendor_id,
            total_memory,
            free_memory,
            used_memory,
            has_unified_memory,
            is_integrated,
            adapter_index,
            driver_version,
        }
    }

    pub fn is_high_memory_dedicated(&self) -> (r: bool)
        ensures
            r == spec_is_high_memory_dedicated(self.is_integrated, self.total_memory),
    {
        !self.is_integrated && self.total_memory >= HIGH_MEMORY_BYTES
    }
}

/// One entry of the full adapter table: a superset of the canonical GPU
/// record that keeps the hardware/virtual flag, for callers who want every
/// enumerated object.
#[derive(Debug, Clone, PartialEq)]
pub struct AdapterData {
    pub name: String,
    pub vendor_id: u32,
    pub device_id: u32,
    pub is_hardware: bool,
    pub is_integrated: bool,
    pub adapter_index: u32,
    pub driver_version: DriverVersionData,
    pub total_memory: u64,
    pub architecture: String,
}

/// The table entry one merged adapter determines: every source field
/// carried over, the driver version unpacked, the total computed from the
/// memory components, and the architecture tag read off the vendor id.
pub open spec fn spec_adapter_entry(out: AdapterData, m: MergedAdapter) -> bool {
    &&& out.name@ == m.name@
    &&& out.vendor_id == m.vendor_id
    &&& out.device_id == m.device_id
    &&& out.is_hardware == m.is_hardware
    &&& out.is_integrated == m.is_integrated
    &&& out.adapter_index == m.adapter_index
    &&& out.driver_version == spec_unpack_driver_version(m.driver_packed)
    &&& out.total_memory == spec_total_memory(
        m.is_integrated,
        m.dedicated_memory,
        m.shared_memory,
    )
    &&& out.architecture@ == spec_vendor_arch(m.vendor_id)
}

/// The table entry at position `i` combines the primary descriptor with
/// the secondary sequence through some merged view.
pub open spec fn spec_table_entry(
    out: AdapterData,
    p: AdapterDescriptor,
    sec: Seq<AdapterDescriptor>,
    i: int,
) -> bool {
    exists|m: MergedAdapter|
        (#[trigger] spec_merged_entry(m, p, sec, i))
            && spec_adapter_entry(out, m)
}

/// KiB converted to bytes, saturating.
pub open spec fn spec_kib_to_bytes(kib: u64) -> u64 {
    if kib > u64::MAX / 1024 {
        u64::MAX
    } else {
        (kib * 1024) as u64
    }
}

/// Converts a KiB reading to bytes, saturating.
pub fn kib_to_bytes(kib: u64) -> (r: u64)
    ensures
        r == spec_kib_to_bytes(kib),
{
    if kib > u64::MAX / 1024 {
        u64::MAX
    } else {
        kib * 1024
    }
}

/// What remains used out of a total once the free figure is taken off;
/// a free figure above the total counts as an inconsistency and yields
/// zero rather than underflowing.
pub open spec fn spec_used_from_total_free(total: u64, free: u64) -> u64 {
    if total < free {
        0
    } else {
        (total - free) as u64
    }
}

/// Computes the used figure from a total and a free reading, saturating.
pub fn used_from_total_free(total: u64, free: u64) -> (r: u64)
    ensures
        r == spec_used_from_total_free(total, free),
{
    if total < free {
        0
    } else {
        total - free
    }
}

/// The per-record well-formedness of the memory triple, as a predicate
/// value.
pub open spec fn wf_pred() -> spec_fn(GPUData) -> bool {
    |g: GPUData| spec_budget_wf(g.total_memory, g.used_memory, g.free_memory)
}

/// Merged entries flag hardware exactly as their primary descriptors do,
/// so both filters have the same length.
proof fn lemma_hw_filter_len(
    ms: Seq<MergedAdapter>,
    primary: Seq<AdapterDescriptor>,
)
    requires
        ms.len() == primary.len(),
        forall|i: int|
            0 <= i < ms.len() ==> (#[trigger] ms[i]).is_hardware == primary[i].is_hardware,
    ensures
        ms.filter(hw_pred()).len() == primary.filter(phw_pred()).len(),
    decreases ms.len(),
{
    reveal(Seq::filter);
    if ms.len() > 0 {
        assert forall|i: int|
            0 <= i < ms.drop_last().len() implies (#[trigger] ms.drop_last()[i]).is_hardware
            == primary.drop_last()[i].is_hardware by {
            assert(ms.drop_last()[i] == ms[i]);
            assert(primary.drop_last()[i] == primary[i]);
        }
        lemma_hw_filter_len(ms.drop_last(), primary.drop_last());
    }
}

impl GPUUsage {
    /// Runs the full reconciliation pipeline: merges the two enumeration
    /// sources by identity key, keeps the hardware adapters, enriches each
    /// through the vendor fallback chain, settles its memory budget, and
    /// ranks the records with high-memory dedicated adapters first.
    ///
    /// Fails only when the primary interface was unavailable; an empty
    /// enumeration yields an empty list, not an error.
    pub fn get_gpus_list(snap: &AdapterSnapshot) -> (r: Result<Vec<GPUData>, GpuError>)
        requires
            snap.primary@.len() <= u32::MAX,
        ensures
            r is Ok <==> snap.available,
            r matches Err(e) ==> e == GpuError::PlatformApiUnavailable,
            r matches Ok(v) ==> {
                &&& v@.len() == spec_hw_count(snap.primary@)
                &&& spec_is_ranked(v@)
                &&& (forall|t: int|
                    #![trigger v@[t]]
                    0 <= t < v@.len() ==> spec_budget_wf(
                        v@[t].total_memory,
                        v@[t].used_memory,
                        v@[t].free_memory,
                    ))
                &&& exists|
                    ms: Seq<MergedAdapter>,
                    ds: Seq<Option<VendorDetails>>,
                    pre: Seq<GPUData>,
                |
                    (#[trigger] spec_pipeline_outcome(*snap, ms, ds, pre))
                        && v@ == spec_rank(pre)
            },
    {
        if !snap.available {
            return Err(GpuError::PlatformApiUnavailable);
        }
        let merged = merge_sources(&snap.primary, &snap.secondary);
        let ghost ms = merged@;
        let n: usize = merged.len();
        let mut pre: Vec<GPUData> = Vec::new();
        let ghost mut ds: Seq<Option<VendorDetails>> = Seq::empty();
        let mut i: usize = 0;
        while i < n
            invariant
                n == ms.len(),
                merged@ == ms,
                ms.len() == snap.primary@.len(),
                snap.primary@.len() <= u32::MAX,
                forall|k: int|
                    0 <= k < ms.len() ==> #[trigger] spec_merged_entry(
                        ms[k],
                        snap.primary@[k],
                        snap.secondary@,
                        k,
                    ),
                0 <= i <= n,
                ds.len() == pre@.len(),
                pre@.len() == ms.take(i as int).filter(hw_pred()).len(),
                forall|t: int|
                    0 <= t < pre@.len() ==> #[trigger] spec_record_from(
                        pre@[t],
                        ms.take(i as int).filter(hw_pred())[t],
                        ds[t],
                        spec_usage_for(
                            snap.usages@,
                            ms.take(i as int).filter(hw_pred())[t].key,
                        ),
                        snap.system_free_memory,
                    ),
                forall|t: int|
                    0 <= t < pre@.len()
                        && (#[trigger] ms.take(i as int).filter(hw_pred())[t]).vendor_id
                        != VENDOR_ID_NVIDIA ==> ds[t] is None,
                forall|t: int|
                    #![trigger pre@[t]]
                    0 <= t < pre@.len() ==> spec_budget_wf(
                        pre@[t].total_memory,
                        pre@[t].used_memory,
                        pre@[t].free_memory,
                    ),
            decreases n - i,
        {
            let ghost prefix = ms.take(i as int).filter(hw_pred());
            let m = &merged[i];
            proof {
                assert(ms.take(i + 1) =~= ms.take(i as int) + seq![ms[i as int]]);
                Seq::filter_distributes_over_add(ms.take(i as int), seq![ms[i as int]], hw_pred());
                lemma_filter_singleton(ms[i as int], hw_pred());
            }
            if m.is_hardware {
                proof {
                    assert(ms.take(i + 1).filter(hw_pred()) =~= prefix.push(ms[i as int]));
                }
                let details = query_vendor_details(m.vendor_id);
                let usage = find_usage_by_key(&snap.usages, m.key);
                let rec = build_canonical_record(
                    m,
                    &details,
                    &usage,
                    snap.system_free_memory,
                );
                pre.push(rec);
                proof {
                    ds = ds.push(details);
                }
            } else {
                proof {
                    assert(ms.take(i + 1).filter(hw_pred()) =~= prefix);
                }
            }
            i = i + 1;
        }
        proof {
            assert(ms.take(n as int) =~= ms);
        }
        let ghost pre_seq = pre@;
        let ranked = rank_gpus(pre);
        proof {
            assert(spec_pipeline_outcome(*snap, ms, ds, pre_seq));
            assert forall|k: int|
                0 <= k < ms.len() implies (#[trigger] ms[k]).is_hardware
                == snap.primary@[k].is_hardware by {
                assert(spec_merged_entry(
                    ms[k],
                    snap.primary@[k],
                    snap.secondary@,
                    k,
                ));
            }
            lemma_hw_filter_len(ms, snap.primary@);
            lemma_rank_preserves_len(pre_seq);
            lemma_filter_preserves(
                pre_seq,
                high_pred(),
                wf_pred(),
            );
            lemma_filter_preserves(
                pre_seq,
                low_pred(),
                wf_pred(),
            );
            let a = pre_seq.filter(high_pred());
            let b = pre_seq.filter(low_pred());
            assert forall|t: int|
                #![trigger ranked@[t]]
                0 <= t < ranked@.len() implies spec_budget_wf(
                ranked@[t].total_memory,
                ranked@[t].used_memory,
                ranked@[t].free_memory,
            ) by {
                if t < a.len() {
                    assert(ranked@[t] == a[t]);
                    assert(wf_pred()(a[t]));
                } else {
                    assert(ranked@[t] == b[t - a.len()]);
                    assert(wf_pred()(b[t - a.len()]));
                }
            }
        }
        Ok(ranked)
    }

    /// The primary adapter: the head of the ranked list. Fails with
    /// `NoAdapterFound` when the enumeration reported no hardware adapter,
    /// and with `PlatformApiUnavailable` when the interface was down.
    pub fn get_gpu_info(snap: &AdapterSnapshot) -> (r: Result<GPUData, GpuError>)
        requires
            snap.primary@.len() <= u32::MAX,
        ensures
            !snap.available ==> (r matches Err(e) && e == GpuError::PlatformApiUnavailable),
            snap.available && spec_hw_count(snap.primary@) == 0 ==> (r matches Err(e)
                && e == GpuError::NoAdapterFound),
            snap.available && spec_hw_count(snap.primary@) > 0 ==> r is Ok,
            r matches Ok(g) ==> {
                &&& spec_budget_wf(g.total_memory, g.used_memory, g.free_memory)
                &&& exists|
                    ms: Seq<MergedAdapter>,
                    ds: Seq<Option<VendorDetails>>,
                    pre: Seq<GPUData>,
                |
                    (#[trigger] spec_pipeline_outcome(*snap, ms, ds, pre))
                        && spec_rank(pre).len() > 0
                        && g == spec_rank(pre)[0]
            },
    {
        let mut gpus = match Self::get_gpus_list(snap) {
            Ok(v) => v,
            Err(e) => {
                return Err(e);
            },
        };
        if gpus.len() == 0 {
            return Err(GpuError::NoAdapterFound);
        }
        let first = gpus.remove(0);
        Ok(first)
    }

    /// The full adapter table: one entry per primary-source object,
    /// hardware or not, in enumeration order, unranked. For diagnostic use.
    pub fn get_all_adapters_list(snap: &AdapterSnapshot) -> (r: Result<
        Vec<AdapterData>,
        GpuError,
    >)
        requires
            snap.primary@.len() <= u32::MAX,
        ensures
            r is Ok <==> snap.available,
            r matches Err(e) ==> e == GpuError::PlatformApiUnavailable,
            r matches Ok(v) ==> {
                &&& v@.len() == snap.primary@.len()
                &&& forall|i: int|
                    #![trigger v@[i]]
                    0 <= i < v@.len() ==> spec_table_entry(
                        v@[i],
                        snap.primary@[i],
                        snap.secondary@,
                        i,
                    )
            },
    {
        if !snap.available {
            return Err(GpuError::PlatformApiUnavailable);
        }
        let merged = merge_sources(&snap.primary, &snap.secondary);
        let ghost ms = merged@;
        let n: usize = merged.len();
        let mut out: Vec<AdapterData> = Vec::new();
        let mut i: usize = 0;
        while i < n
            invariant
                n == ms.len(),
                merged@ == ms,
                ms.len() == snap.primary@.len(),
                forall|k: int|
                    0 <= k < ms.len() ==> #[trigger] spec_merged_entry(
                        ms[k],
                        snap.primary@[k],
                        snap.secondary@,
                        k,
                    ),
                0 <= i <= n,
                out@.len() == i,
                forall|k: int|
                    #![trigger out@[k]]
                    0 <= k < i ==> spec_table_entry(
                        out@[k],
                        snap.primary@[k],
                        snap.secondary@,
                        k,
                    ),
            decreases n - i,
        {
            let m = &merged[i];
            let entry = AdapterData {
                name: m.name.clone(),
                vendor_id: m.vendor_id,
                device_id: m.device_id,
                is_hardware: m.is_hardware,
                is_integrated: m.is_integrated,
                adapter_index: m.adapter_index,
                driver_version: unpack_driver_version(m.driver_packed),
                total_memory: total_from_components(
                    m.is_integrated,
                    m.dedicated_memory,
                    m.shared_memory,
                ),
                architecture: String::from_str(vendor_to_arch(m.vendor_id)),
            };
            proof {
                assert(spec_adapter_entry(entry, ms[i as int]));
                assert(spec_merged_entry(
                    ms[i as int],
                    snap.primary@[i as int],
                    snap.secondary@,
                    i as int,
                ));
                assert(spec_table_entry(
                    entry,
                    snap.primary@[i as int],
                    snap.secondary@,
                    i as int,
                ));
            }
            out.push(entry);
            i = i + 1;
        }
        Ok(out)
    }

    /// The generic interface's total GPU memory figure on platforms whose
    /// enumeration carries the memory inside the descriptors instead: it
    /// reports none here.
    pub fn total_gpu_memory() -> (r: Result<u64, GpuError>)
        ensures
            r matches Ok(v) && v == 0,
    {
        Ok(0)
    }

    /// Whether the generic interface reports a unified memory pool: it
    /// never does on this path; the descriptor flag decides instead.
    pub fn has_unified_memory() -> (r: Result<bool, GpuError>)
        ensures
            r matches Ok(v) && !v,
    {
        Ok(false)
    }

    /// The free GPU memory of an adapter sharing the system pool: the
    /// machine's free system memory, converted to bytes.
    pub fn current_gpu_memory_free() -> (r: Result<u64, GpuError>)
        ensures
            r matches Err(e) ==> e == GpuError::PlatformApiUnavailable,
    {
        match crate::sysquery::read_mem_info() {
            Some(m) => Ok(kib_to_bytes(m.1)),
            None => Err(GpuError::PlatformApiUnavailable),
        }
    }

    /// The used GPU memory the generic interface can derive: what the free
    /// figure leaves of the (here absent) total, never an underflow.
    pub fn current_gpu_memory_usage() -> (r: Result<u64, GpuError>)
        ensures
            r matches Ok(v) ==> v == 0,
            r matches Err(e) ==> e == GpuError::PlatformApiUnavailable,
    {
        let total = match Self::total_gpu_memory() {
            Ok(t) => t,
            Err(e) => {
                return Err(e);
            },
        };
        let free = match Self::current_gpu_memory_free() {
            Ok(f) => f,
            Err(e) => {
                return Err(e);
            },
        };
        Ok(used_from_total_free(total, free))
    }
}

} // verus!
