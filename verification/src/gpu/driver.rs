//! Packing and unpacking of driver versions.
//!
//! The platform reports a driver version as one packed 64-bit value holding
//! four 16-bit fields: major at bit 48, minor at bit 32, build at bit 16 and
//! revision at bit 0.

use vstd::prelude::*;
use crate::gpu::DriverVersionData;

verus! {

pub open spec fn spec_unpack_major(packed: u64) -> u64 {
    (packed >> 48) & 0xFFFF
}

pub open spec fn spec_unpack_minor(packed: u64) -> u64 {
    (packed >> 32) & 0xFFFF
}

pub open spec fn spec_unpack_build(packed: u64) -> u64 {
    (packed >> 16) & 0xFFFF
}

pub open spec fn spec_unpack_revision(packed: u64) -> u64 {
    packed & 0xFFFF
}

/// The driver version denoted by a packed 64-bit value.
pub open spec fn spec_unpack_driver_version(packed: u64) -> DriverVersionData {
    DriverVersionData {
        major: spec_unpack_major(packed),
        minor: spec_unpack_minor(packed),
        build: spec_unpack_build(packed),
        revision: spec_unpack_revision(packed),
    }
}

/// Every field of an unpacked driver version fits in 16 bits.
pub open spec fn spec_driver_fields_fit(d: DriverVersionData) -> bool {
    d.major <= 0xFFFF && d.minor <= 0xFFFF && d.build <= 0xFFFF && d.revision <= 0xFFFF
}

/// Unpacks the four 16-bit fields of a packed driver version.
pub fn unpack_driver_version(packed: u64) -> (r: DriverVersionData)
    ensures
        r == spec_unpack_driver_version(packed),
        spec_driver_fields_fit(r),
{
    proof {
        lemma_unpacked_fields_fit(packed);
    }
    DriverVersionData {
        major: (packed >> 48) & 0xFFFF,
        minor: (packed >> 32) & 0xFFFF,
        build: (packed >> 16) & 0xFFFF,
        revision: packed & 0xFFFF,
    }
}

/// Packs four 16-bit fields into one 64-bit driver version value.
pub fn pack_driver_version(d: &DriverVersionData) -> (r: u64)
    requires
        spec_driver_fields_fit(*d),
    ensures
        r == spec_pack_driver_version(*d),
        spec_unpack_driver_version(r) == *d,
{
    proof {
        lemma_driver_version_round_trip(*d);
    }
    (d.major << 48) | (d.minor << 32) | (d.build << 16) | d.revision
}

/// The packed 64-bit value denoting a driver version whose fields fit in 16
/// bits each.
pub open spec fn spec_pack_driver_version(d: DriverVersionData) -> u64 {
    (d.major << 48) | (d.minor << 32) | (d.build << 16) | d.revision
}

/// Each field unpacked from a packed value fits in 16 bits.
pub proof fn lemma_unpacked_fields_fit(packed: u64)
    ensures
        spec_driver_fields_fit(spec_unpack_driver_version(packed)),
{
    assert((packed >> 48) & 0xFFFF <= 0xFFFF) by (bit_vector);
    assert((packed >> 32) & 0xFFFF <= 0xFFFF) by (bit_vector);
    assert((packed >> 16) & 0xFFFF <= 0xFFFF) by (bit_vector);
    assert(packed & 0xFFFF <= 0xFFFF) by (bit_vector);
}

/// Law: packing four 16-bit fields and unpacking the result reproduces the
/// original fields exactly.
pub proof fn lemma_driver_version_round_trip(d: DriverVersionData)
    requires
        spec_driver_fields_fit(d),
    ensures
        spec_unpack_driver_version(spec_pack_driver_version(d)) == d,
{
    let major = d.major;
    let minor = d.minor;
    let build = d.build;
    let revision = d.revision;
    let packed = spec_pack_driver_version(d);
    assert({
        let p = (major << 48) | (minor << 32) | (build << 16) | revision;
        ((p >> 48) & 0xFFFF == major)
        && ((p >> 32) & 0xFFFF == minor)
        && ((p >> 16) & 0xFFFF == build)
        && (p & 0xFFFF == revision)
    }) by (bit_vector)
        requires
            major <= 0xFFFF && minor <= 0xFFFF && build <= 0xFFFF && revision <= 0xFFFF,
    ;
}

} // verus!
