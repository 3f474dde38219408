//! Cross-source identity matching.
//!
//! The platform exposes two independently ordered enumeration interfaces: a
//! capability-oriented one (the primary sequence) and a display-oriented one
//! (the secondary sequence). Entries correlate by exact 64-bit identity key;
//! a primary entry without a match is kept with a synthetic name and zeroed
//! vendor and memory figures rather than dropped, so that the number of
//! adapters in the output always equals the number the primary interface
//! reported.

use vstd::prelude::*;
use crate::text::{format_u32, spec_decimal};

verus! {

/// One raw adapter descriptor as a single enumeration source reported it.
/// Each source fills the fields it knows; the rest stay zero.
#[derive(Debug, Clone, PartialEq)]
pub struct AdapterDescriptor {
    /// The platform-stable identity key of the adapter object.
    pub key: u64,
    pub name: String,
    pub vendor_id: u32,
    pub device_id: u32,
    pub is_hardware: bool,
    pub is_integrated: bool,
    pub has_unified_memory: bool,
    pub dedicated_memory: u64,
    pub shared_memory: u64,
    /// The source's allocated-size counter, where it has one.
    pub allocated_memory: u64,
    pub driver_packed: u64,
}

/// One adapter after the two sources were correlated by identity key.
#[derive(Debug, Clone, PartialEq)]
pub struct MergedAdapter {
    pub key: u64,
    pub name: String,
    pub vendor_id: u32,
    pub device_id: u32,
    pub is_hardware: bool,
    pub is_integrated: bool,
    pub has_unified_memory: bool,
    pub dedicated_memory: u64,
    pub shared_memory: u64,
    pub allocated_memory: u64,
    pub driver_packed: u64,
    /// The position of the adapter in the primary enumeration.
    pub adapter_index: u32,
    /// Whether a display-oriented entry with the same key was found.
    pub matched: bool,
}

/// The synthetic placeholder name of the unmatched adapter at position `i`.
pub open spec fn spec_adapter_label(i: u32) -> Seq<char> {
    "Adapter "@ + spec_decimal(i as nat)
}

/// Some entry of `s` carries this identity key.
pub open spec fn spec_has_key(s: Seq<AdapterDescriptor>, key: u64) -> bool {
    exists|j: int| 0 <= j < s.len() && s[j].key == key
}

/// `j` is the first position of `s` carrying this identity key.
pub open spec fn spec_first_key_at(s: Seq<AdapterDescriptor>, key: u64, j: int) -> bool {
    &&& 0 <= j < s.len()
    &&& s[j].key == key
    &&& forall|m: int| 0 <= m < j ==> s[m].key != key
}

/// The merged entry `out` combines the primary entry `p` (at position `i`)
/// with the secondary sequence `sec`: the capability-side fields always come
/// from `p`; the display-side fields come from the first secondary entry
/// with the same key, or stay placeholders when no key matches.
pub open spec fn spec_merged_entry(
    out: MergedAdapter,
    p: AdapterDescriptor,
    sec: Seq<AdapterDescriptor>,
    i: int,
) -> bool {
    &&& out.key == p.key
    &&& out.is_hardware == p.is_hardware
    &&& out.is_integrated == p.is_integrated
    &&& out.has_unified_memory == p.has_unified_memory
    &&& out.allocated_memory == p.allocated_memory
    &&& out.driver_packed == p.driver_packed
    &&& out.adapter_index == i
    &&& out.matched == spec_has_key(sec, p.key)
    &&& if spec_has_key(sec, p.key) {
        exists|j: int|
            {
                &&& #[trigger] spec_first_key_at(sec, p.key, j)
                &&& out.name@ == sec[j].name@
                &&& out.vendor_id == sec[j].vendor_id
                &&& out.device_id == sec[j].device_id
                &&& out.dedicated_memory == sec[j].dedicated_memory
                &&& out.shared_memory == sec[j].shared_memory
            }
    } else {
        &&& out.name@ == spec_adapter_label(i as u32)
        &&& out.vendor_id == 0
        &&& out.device_id == 0
        &&& out.dedicated_memory == 0
        &&& out.shared_memory == 0
    }
}

/// Finds the first secondary entry carrying this identity key.
fn find_by_key(sec: &Vec<AdapterDescriptor>, key: u64) -> (r: Option<usize>)
    ensures
        match r {
            Some(j) => spec_first_key_at(sec@, key, j as int),
            None => !spec_has_key(sec@, key),
        },
{
    let n: usize = sec.len();
    let mut j: usize = 0;
    while j < n
        invariant
            n == sec@.len(),
            0 <= j <= n,
            forall|m: int| 0 <= m < j ==> sec@[m].key != key,
        decreases n - j,
    {
        if sec[j].key == key {
            return Some(j);
        }
        j = j + 1;
    }
    None
}

/// Correlates the two enumeration sequences by identity key. The output
/// holds exactly one entry per primary entry, in primary order; unmatched
/// entries keep only their capability-side data, under a synthetic name.
pub fn merge_sources(
    primary: &Vec<AdapterDescriptor>,
    secondary: &Vec<AdapterDescriptor>,
) -> (r: Vec<MergedAdapter>)
    requires
        primary@.len() <= u32::MAX,
    ensures
        r@.len() == primary@.len(),
        forall|i: int|
            0 <= i < r@.len() ==> #[trigger] spec_merged_entry(r@[i], primary@[i], secondary@, i),
{
    let n: usize = primary.len();
    let mut out: Vec<MergedAdapter> = Vec::new();
    let mut i: usize = 0;
    while i < n
        invariant
            n == primary@.len(),
            n <= u32::MAX,
            0 <= i <= n,
            out@.len() == i,
            forall|m: int|
                0 <= m < i ==> #[trigger] spec_merged_entry(out@[m], primary@[m], secondary@, m),
        decreases n - i,
    {
        let p = &primary[i];
        let entry = match find_by_key(secondary, p.key) {
            Some(j) => {
                let s = &secondary[j];
                MergedAdapter {
                    key: p.key,
                    name: s.name.clone(),
                    vendor_id: s.vendor_id,
                    device_id: s.device_id,
                    is_hardware: p.is_hardware,
                    is_integrated: p.is_integrated,
                    has_unified_memory: p.has_unified_memory,
                    dedicated_memory: s.dedicated_memory,
                    shared_memory: s.shared_memory,
                    allocated_memory: p.allocated_memory,
                    driver_packed: p.driver_packed,
                    adapter_index: i as u32,
                    matched: true,
                }
            },
            None => {
                let mut label = String::from_str("Adapter ");
                label.append(format_u32(i as u32).as_str());
                MergedAdapter {
                    key: p.key,
                    name: label,
                    vendor_id: 0,
                    device_id: 0,
                    is_hardware: p.is_hardware,
                    is_integrated: p.is_integrated,
                    has_unified_memory: p.has_unified_memory,
                    dedicated_memory: 0,
                    shared_memory: 0,
                    allocated_memory: p.allocated_memory,
                    driver_packed: p.driver_packed,
                    adapter_index: i as u32,
                    matched: false,
                }
            },
        };
        proof {
            assert(spec_merged_entry(entry, primary@[i as int], secondary@, i as int));
        }
        out.push(entry);
        i = i + 1;
    }
    out
}

} // verus!
