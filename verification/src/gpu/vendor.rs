//! Vendor detail resolution.
//!
//! A merged adapter stub is enriched through an ordered fallback chain: a
//! vendor-proprietary query first, then the generic descriptor fields the
//! enumeration already collected, which the matcher has already defaulted
//! where even those were missing. A vendor-path failure at any step yields
//! no details at all, never a partial write, so the record then equals the
//! generic-descriptor record exactly.

use vstd::prelude::*;
use crate::gpu::{DriverVersionData, GPUData, spec_budget_wf};
use crate::gpu::budget::{
    make_budget, spec_budget_free, spec_budget_used, spec_total_memory, total_from_components,
};
use crate::gpu::driver::{spec_unpack_driver_version, unpack_driver_version};
use crate::gpu::estimator::{estimate_used, spec_estimated_used};
use crate::gpu::matcher::MergedAdapter;

verus! {

pub const VENDOR_ID_AMD: u32 = 0x1002;
pub const VENDOR_ID_NVIDIA: u32 = 0x10DE;
pub const VENDOR_ID_INTEL: u32 = 0x8086;
pub const VENDOR_ID_QUALCOMM: u32 = 0x14E4;

/// The architecture tag denoting a vendor id.
pub open spec fn spec_vendor_arch(vendor: u32) -> Seq<char> {
    if vendor == VENDOR_ID_AMD {
        "Radeon"@
    } else if vendor == VENDOR_ID_NVIDIA {
        "NVIDIA"@
    } else if vendor == VENDOR_ID_INTEL {
        "Intel"@
    } else if vendor == VENDOR_ID_QUALCOMM {
        "Qualcomm"@
    } else {
        "Unknown"@
    }
}

/// Maps a numeric vendor id to its architecture tag.
pub fn vendor_to_arch(vendor: u32) -> (r: &'static str)
    ensures
        r@ == spec_vendor_arch(vendor),
{
    match vendor {
        0x1002u32 => "Radeon",
        0x10DEu32 => "NVIDIA",
        0x8086u32 => "Intel",
        0x14E4u32 => "Qualcomm",
        _ => "Unknown",
    }
}

/// The vendor id guessed from a display name, for enumerations that
/// report names only: the first vendor whose name, in any of its usual
/// spellings, occurs in the text.
pub open spec fn spec_vendor_id_from_name(name: Seq<char>) -> u32 {
    if crate::text::spec_str_contains(name, "NVIDIA"@) || crate::text::spec_str_contains(
        name,
        "nvidia"@,
    ) || crate::text::spec_str_contains(name, "Nvidia"@) {
        VENDOR_ID_NVIDIA
    } else if crate::text::spec_str_contains(name, "AMD"@) || crate::text::spec_str_contains(
        name,
        "amd"@,
    ) {
        VENDOR_ID_AMD
    } else if crate::text::spec_str_contains(name, "Intel"@) || crate::text::spec_str_contains(
        name,
        "intel"@,
    ) || crate::text::spec_str_contains(name, "INTEL"@) {
        VENDOR_ID_INTEL
    } else {
        0
    }
}

/// Guesses the vendor id from a display name.
pub fn vendor_id_from_name(name: &str) -> (r: u32)
    ensures
        r == spec_vendor_id_from_name(name@),
{
    if crate::text::str_contains(name, "NVIDIA") || crate::text::str_contains(name, "nvidia")
        || crate::text::str_contains(name, "Nvidia") {
        VENDOR_ID_NVIDIA
    } else if crate::text::str_contains(name, "AMD") || crate::text::str_contains(name, "amd") {
        VENDOR_ID_AMD
    } else if crate::text::str_contains(name, "Intel") || crate::text::str_contains(name, "intel")
        || crate::text::str_contains(name, "INTEL") {
        VENDOR_ID_INTEL
    } else {
        0
    }
}

/// What a successful vendor-proprietary query reports about one adapter.
#[derive(Debug, Clone, PartialEq)]
pub struct VendorDetails {
    pub name: String,
    pub architecture: String,
    pub total_memory: u64,
    pub used_memory: u64,
    pub free_memory: u64,
    pub driver_major: u64,
    pub driver_minor: u64,
}

/// A direct free/used readout for one adapter, keyed like the descriptors.
#[derive(Clone, Copy, Debug, PartialEq, Eq, Structural)]
pub struct UsageReading {
    pub key: u64,
    pub dedicated_used: u64,
    pub shared_used: u64,
}

/// Some reading of `s` carries this identity key.
pub open spec fn spec_has_usage(s: Seq<UsageReading>, key: u64) -> bool {
    exists|j: int| 0 <= j < s.len() && s[j].key == key
}

/// `j` is the first position of `s` carrying this identity key.
pub open spec fn spec_first_usage_at(s: Seq<UsageReading>, key: u64, j: int) -> bool {
    &&& 0 <= j < s.len()
    &&& s[j].key == key
    &&& forall|m: int| 0 <= m < j ==> s[m].key != key
}

/// The direct readout belonging to an adapter: the first reading carrying
/// its identity key, if any does.
pub open spec fn spec_usage_for(s: Seq<UsageReading>, key: u64) -> Option<UsageReading> {
    if spec_has_usage(s, key) {
        Some(s[choose|j: int| spec_first_usage_at(s, key, j)])
    } else {
        None
    }
}

/// A position known to be the first reading with a key is the one the
/// specification denotes.
proof fn lemma_first_usage_choose(s: Seq<UsageReading>, key: u64, j: int)
    requires
        spec_first_usage_at(s, key, j),
    ensures
        spec_has_usage(s, key),
        spec_usage_for(s, key) == Some(s[j]),
{
    assert(spec_has_usage(s, key));
    let x = choose|x: int| spec_first_usage_at(s, key, x);
    if x < j {
        assert(s[x].key == key);
        assert(false);
    }
    if j < x {
        assert(s[j].key == key);
        assert(false);
    }
}

/// Looks up the direct free/used readout of an adapter by identity key.
pub fn find_usage_by_key(usages: &Vec<UsageReading>, key: u64) -> (r: Option<UsageReading>)
    ensures
        r == spec_usage_for(usages@, key),
{
    let n: usize = usages.len();
    let mut j: usize = 0;
    while j < n
        invariant
            n == usages@.len(),
            0 <= j <= n,
            forall|m: int| 0 <= m < j ==> usages@[m].key != key,
        decreases n - j,
    {
        if usages[j].key == key {
            proof {
                lemma_first_usage_choose(usages@, key, j as int);
            }
            return Some(usages[j]);
        }
        j = j + 1;
    }
    None
}

/// The total memory of the record: the vendor figure when the vendor path
/// succeeded, else the components the enumeration reported.
pub open spec fn spec_record_total(m: MergedAdapter, details: Option<VendorDetails>) -> u64 {
    match details {
        Some(d) => d.total_memory,
        None => spec_total_memory(m.is_integrated, m.dedicated_memory, m.shared_memory),
    }
}

/// The raw used figure of the record, before the budget clamp: the vendor
/// figure when the vendor path succeeded; else the direct readout, whose
/// components combine exactly like the total's; else the estimate.
pub open spec fn spec_record_used_raw(
    m: MergedAdapter,
    details: Option<VendorDetails>,
    usage: Option<UsageReading>,
    system_free: u64,
) -> u64 {
    match details {
        Some(d) => d.used_memory,
        None => match usage {
            Some(u) => spec_total_memory(m.is_integrated, u.dedicated_used, u.shared_used),
            None => spec_estimated_used(
                m.has_unified_memory,
                spec_record_total(m, details),
                m.allocated_memory,
                system_free,
            ),
        },
    }
}

/// The canonical record that one merged stub, one vendor outcome, one
/// optional direct readout and the free system memory determine.
pub open spec fn spec_record_from(
    rec: GPUData,
    m: MergedAdapter,
    details: Option<VendorDetails>,
    usage: Option<UsageReading>,
    system_free: u64,
) -> bool {
    let total = spec_record_total(m, details);
    let used_raw = spec_record_used_raw(m, details, usage, system_free);
    &&& rec.vendor_id == m.vendor_id
    &&& rec.is_integrated == m.is_integrated
    &&& rec.has_unified_memory == m.has_unified_memory
    &&& rec.adapter_index == m.adapter_index
    &&& rec.total_memory == total
    &&& rec.used_memory == spec_budget_used(total, used_raw)
    &&& rec.free_memory == spec_budget_free(total, used_raw)
    &&& match details {
        Some(d) => {
            &&& rec.name@ == d.name@
            &&& rec.architecture@ == d.architecture@
            &&& rec.driver_version == (DriverVersionData {
                major: d.driver_major,
                minor: d.driver_minor,
                build: 0,
                revision: 0,
            })
        },
        None => {
            &&& rec.name@ == m.name@
            &&& rec.architecture@ == spec_vendor_arch(m.vendor_id)
            &&& rec.driver_version == spec_unpack_driver_version(m.driver_packed)
        },
    }
}

/// Two records agree on every field.
pub open spec fn spec_same_record(a: GPUData, b: GPUData) -> bool {
    &&& a.name@ == b.name@
    &&& a.architecture@ == b.architecture@
    &&& a.vendor_id == b.vendor_id
    &&& a.total_memory == b.total_memory
    &&& a.free_memory == b.free_memory
    &&& a.used_memory == b.used_memory
    &&& a.has_unified_memory == b.has_unified_memory
    &&& a.is_integrated == b.is_integrated
    &&& a.adapter_index == b.adapter_index
    &&& a.driver_version == b.driver_version
}

/// Builds the canonical record of one adapter from the merged stub, the
/// vendor-path outcome, the optional direct readout and the free system
/// memory. The memory triple always satisfies the budget invariant.
pub fn build_canonical_record(
    m: &MergedAdapter,
    details: &Option<VendorDetails>,
    usage: &Option<UsageReading>,
    system_free: u64,
) -> (r: GPUData)
    ensures
        spec_record_from(r, *m, *details, *usage, system_free),
        spec_budget_wf(r.total_memory, r.used_memory, r.free_memory),
{
    let (name, architecture, total, used_raw, driver) = match details {
        Some(d) => (
            d.name.clone(),
            d.architecture.clone(),
            d.total_memory,
            d.used_memory,
            DriverVersionData { major: d.driver_major, minor: d.driver_minor, build: 0, revision: 0 },
        ),
        None => {
            let total = total_from_components(
                m.is_integrated,
                m.dedicated_memory,
                m.shared_memory,
            );
            let used_raw = match usage {
                Some(u) => total_from_components(m.is_integrated, u.dedicated_used, u.shared_used),
                None => estimate_used(
                    m.has_unified_memory,
                    total,
                    m.allocated_memory,
                    system_free,
                ),
            };
            (
                m.name.clone(),
                String::from_str(vendor_to_arch(m.vendor_id)),
                total,
                used_raw,
                unpack_driver_version(m.driver_packed),
            )
        },
    };
    let (used, free) = make_budget(total, used_raw);
    GPUData {
        name,
        architecture,
        vendor_id: m.vendor_id,
        total_memory: total,
        free_memory: free,
        used_memory: used,
        has_unified_memory: m.has_unified_memory,
        is_integrated: m.is_integrated,
        adapter_index: m.adapter_index,
        driver_version: driver,
    }
}

/// Attempts the vendor-proprietary detail query for one adapter. Only the
/// NVIDIA vendor id has a query path; a failure of any step — library
/// initialisation, version read, device lookup or any device sub-query —
/// abandons the whole attempt with `None` and leaves no partial result.
pub fn query_vendor_details(vendor_id: u32) -> (r: Option<VendorDetails>)
    ensures
        vendor_id != VENDOR_ID_NVIDIA ==> r is None,
{
    if vendor_id != VENDOR_ID_NVIDIA {
        return None;
    }
    let nvml = match crate::gpu::nvml::nvml_init() {
        Some(n) => n,
        None => {
            return None;
        },
    };
    let version = match crate::gpu::nvml::nvml_sys_driver_version(&nvml) {
        Some(v) => v,
        None => {
            return None;
        },
    };
    let (driver_major, driver_minor) = match crate::gpu::version::parse_driver_version(
        version.as_str(),
    ) {
        Some(p) => p,
        None => {
            return None;
        },
    };
    let device = match crate::gpu::nvml::nvml_device_by_index(&nvml, 0) {
        Some(d) => d,
        None => {
            return None;
        },
    };
    let name = match crate::gpu::nvml::nvml_device_name(&device) {
        Some(n) => n,
        None => {
            return None;
        },
    };
    let architecture = match crate::gpu::nvml::nvml_device_architecture(&device) {
        Some(a) => a,
        None => {
            return None;
        },
    };
    let (total_memory, used_memory, free_memory) = match crate::gpu::nvml::nvml_device_memory_info(
        &device,
    ) {
        Some(m) => m,
        None => {
            return None;
        },
    };
    Some(VendorDetails {
        name,
        architecture,
        total_memory,
        used_memory,
        free_memory,
        driver_major,
        driver_minor,
    })
}

/// Law: an integrated record built from the enumeration's own figures
/// reports exactly the dedicated plus the shared component as its total,
/// whenever that sum fits the word.
pub proof fn lemma_integrated_record_total(
    rec: GPUData,
    m: MergedAdapter,
    usage: Option<UsageReading>,
    system_free: u64,
)
    requires
        spec_record_from(rec, m, None, usage, system_free),
        m.is_integrated,
        m.dedicated_memory + m.shared_memory <= u64::MAX,
    ensures
        rec.total_memory == m.dedicated_memory + m.shared_memory,
{
}

/// Law: a discrete record built from the enumeration's own figures reports
/// the dedicated component alone as its total, whatever the shared
/// component says.
pub proof fn lemma_discrete_record_total(
    rec: GPUData,
    m: MergedAdapter,
    usage: Option<UsageReading>,
    system_free: u64,
)
    requires
        spec_record_from(rec, m, None, usage, system_free),
        !m.is_integrated,
    ensures
        rec.total_memory == m.dedicated_memory,
{
}

/// Law: the record is a function of its inputs, so a vendor attempt that
/// failed at any step yields, field for field, exactly the record of the
/// generic-descriptor path.
pub proof fn lemma_vendor_fallback_exact(
    a: GPUData,
    b: GPUData,
    m: MergedAdapter,
    usage: Option<UsageReading>,
    system_free: u64,
)
    requires
        spec_record_from(a, m, None, usage, system_free),
        spec_record_from(b, m, None, usage, system_free),
    ensures
        spec_same_record(a, b),
{
}

} // verus!
