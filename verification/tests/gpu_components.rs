use sys_stats::gpu::budget::{make_budget, total_from_components};
use sys_stats::gpu::driver::{pack_driver_version, unpack_driver_version};
use sys_stats::gpu::estimator::estimate_used;
use sys_stats::gpu::matcher::{merge_sources, AdapterDescriptor};
use sys_stats::gpu::ranking::rank_gpus;
use sys_stats::gpu::vendor::{
    build_canonical_record, find_usage_by_key, query_vendor_details, vendor_id_from_name,
    vendor_to_arch, UsageReading, VendorDetails,
};
use sys_stats::gpu::version::parse_driver_version;
use sys_stats::gpu::{
    kib_to_bytes, used_from_total_free, DriverVersionData, GPUData, GPUUsage, HIGH_MEMORY_BYTES,
};

fn descriptor(key: u64) -> AdapterDescriptor {
    AdapterDescriptor {
        key,
        name: String::new(),
        vendor_id: 0,
        device_id: 0,
        is_hardware: true,
        is_integrated: false,
        has_unified_memory: false,
        dedicated_memory: 0,
        shared_memory: 0,
        allocated_memory: 0,
        driver_packed: 0,
    }
}

#[test]
fn driver_version_round_trip() {
    let original = DriverVersionData {
        major: 10,
        minor: 2,
        build: 3,
        revision: 4,
    };
    let packed = pack_driver_version(&original);
    assert_eq!(packed, 0x000A_0002_0003_0004);
    let unpacked = unpack_driver_version(packed);
    assert_eq!(unpacked, original);
}

#[test]
fn driver_version_unpacks_by_fixed_shifts() {
    let d = unpack_driver_version(0xFFFF_0001_8000_7FFF);
    assert_eq!(d.major, 0xFFFF);
    assert_eq!(d.minor, 0x0001);
    assert_eq!(d.build, 0x8000);
    assert_eq!(d.revision, 0x7FFF);
}

#[test]
fn budget_saturates_and_balances() {
    assert_eq!(make_budget(100, 40), (40, 60));
    assert_eq!(make_budget(100, 100), (100, 0));
    assert_eq!(make_budget(100, 150), (100, 0));
    assert_eq!(make_budget(0, 5), (0, 0));
}

#[test]
fn integrated_total_is_dedicated_plus_shared() {
    assert_eq!(total_from_components(true, 100, 400), 500);
    assert_eq!(total_from_components(true, u64::MAX, 1), u64::MAX);
}

#[test]
fn discrete_total_is_dedicated_only() {
    assert_eq!(total_from_components(false, 100, 400), 100);
    assert_eq!(total_from_components(false, 0, 400), 0);
}

#[test]
fn estimator_unified_and_discrete_paths() {
    assert_eq!(estimate_used(true, 100, 0, 30), 70);
    assert_eq!(estimate_used(true, 100, 0, 130), 0);
    assert_eq!(estimate_used(false, 100, 40, 0), 20);
    assert_eq!(estimate_used(false, 100, 400, 0), 100);
}

#[test]
fn vendor_table_is_exact() {
    assert_eq!(vendor_to_arch(0x1002), "Radeon");
    assert_eq!(vendor_to_arch(0x10DE), "NVIDIA");
    assert_eq!(vendor_to_arch(0x8086), "Intel");
    assert_eq!(vendor_to_arch(0x14E4), "Qualcomm");
    assert_eq!(vendor_to_arch(7), "Unknown");
    assert_eq!(vendor_to_arch(0), "Unknown");
}

#[test]
fn vendor_id_guessed_from_display_names() {
    assert_eq!(vendor_id_from_name("GeForce RTX (nvidia)"), 0x10DE);
    assert_eq!(vendor_id_from_name("Advanced Micro Devices AMD"), 0x1002);
    assert_eq!(vendor_id_from_name("Intel UHD Graphics"), 0x8086);
    assert_eq!(vendor_id_from_name("Matrox G200"), 0);
}

#[test]
fn merge_keeps_count_and_correlates_by_key() {
    let p0 = descriptor(41);
    let p1 = descriptor(42);
    let mut s0 = descriptor(42);
    s0.name = String::from("ByKey");
    s0.vendor_id = 9;
    s0.device_id = 8;
    s0.dedicated_memory = 7;
    s0.shared_memory = 6;
    let merged = merge_sources(&vec![p0, p1], &vec![s0]);
    assert_eq!(merged.len(), 2);
    assert!(!merged[0].matched);
    assert_eq!(merged[0].name, "Adapter 0");
    assert_eq!(merged[0].vendor_id, 0);
    assert_eq!(merged[0].dedicated_memory, 0);
    assert!(merged[1].matched);
    assert_eq!(merged[1].name, "ByKey");
    assert_eq!(merged[1].vendor_id, 9);
    assert_eq!(merged[1].device_id, 8);
    assert_eq!(merged[1].dedicated_memory, 7);
    assert_eq!(merged[1].shared_memory, 6);
}

#[test]
fn merge_takes_the_first_matching_key() {
    let p = descriptor(5);
    let mut s0 = descriptor(5);
    s0.name = String::from("first");
    let mut s1 = descriptor(5);
    s1.name = String::from("second");
    let merged = merge_sources(&vec![p], &vec![s0, s1]);
    assert_eq!(merged[0].name, "first");
}

#[test]
fn vendor_fallback_equals_generic_path() {
    let mut p = descriptor(9);
    p.is_integrated = true;
    p.has_unified_memory = true;
    p.driver_packed = (1u64 << 48) | (2u64 << 32);
    let mut s = descriptor(9);
    s.name = String::from("Integrated Graphics");
    s.vendor_id = 0x8086;
    s.dedicated_memory = 100;
    s.shared_memory = 300;
    let merged = merge_sources(&vec![p], &vec![s]);
    let m = &merged[0];
    // the vendor path for a non-NVIDIA id fails at its first step
    let failed = query_vendor_details(m.vendor_id);
    assert!(failed.is_none());
    let via_failed_vendor = build_canonical_record(m, &failed, &None, 250);
    let generic_only = build_canonical_record(m, &None, &None, 250);
    assert_eq!(via_failed_vendor, generic_only);
    assert_eq!(generic_only.name, "Integrated Graphics");
    assert_eq!(generic_only.architecture, "Intel");
    assert_eq!(generic_only.total_memory, 400);
    assert_eq!(generic_only.free_memory, 250);
    assert_eq!(generic_only.used_memory, 150);
    assert_eq!(generic_only.driver_version.major, 1);
    assert_eq!(generic_only.driver_version.minor, 2);
}

#[test]
fn vendor_details_override_generic_fields() {
    let mut p = descriptor(10);
    p.driver_packed = 77u64 << 48;
    let mut s = descriptor(10);
    s.name = String::from("Generic Name");
    s.vendor_id = 0x10DE;
    s.dedicated_memory = 111;
    let merged = merge_sources(&vec![p], &vec![s]);
    let details = Some(VendorDetails {
        name: String::from("Vendor Name"),
        architecture: String::from("Ada"),
        total_memory: 1000,
        used_memory: 400,
        free_memory: 600,
        driver_major: 570,
        driver_minor: 86,
    });
    let rec = build_canonical_record(&merged[0], &details, &None, 0);
    assert_eq!(rec.name, "Vendor Name");
    assert_eq!(rec.architecture, "Ada");
    assert_eq!(rec.total_memory, 1000);
    assert_eq!(rec.used_memory, 400);
    assert_eq!(rec.free_memory, 600);
    assert_eq!(
        rec.driver_version,
        DriverVersionData {
            major: 570,
            minor: 86,
            build: 0,
            revision: 0
        }
    );
}

#[test]
fn usage_lookup_finds_the_first_reading() {
    let usages = vec![
        UsageReading {
            key: 1,
            dedicated_used: 10,
            shared_used: 20,
        },
        UsageReading {
            key: 2,
            dedicated_used: 30,
            shared_used: 40,
        },
        UsageReading {
            key: 2,
            dedicated_used: 99,
            shared_used: 99,
        },
    ];
    let hit = find_usage_by_key(&usages, 2).unwrap();
    assert_eq!(hit.dedicated_used, 30);
    assert!(find_usage_by_key(&usages, 3).is_none());
}

#[test]
fn rank_orders_high_memory_dedicated_first() {
    let mk = |name: &str, integrated: bool, total: u64| {
        GPUData::new_with_values(
            String::from(name),
            String::new(),
            0,
            total,
            0,
            0,
            false,
            integrated,
            0,
            DriverVersionData {
                major: 0,
                minor: 0,
                build: 0,
                revision: 0,
            },
        )
    };
    let input = vec![
        mk("A", false, 1),
        mk("B", false, HIGH_MEMORY_BYTES),
        mk("C", true, HIGH_MEMORY_BYTES),
        mk("D", false, u64::MAX),
    ];
    let ranked = rank_gpus(input);
    let order: Vec<&str> = ranked.iter().map(|g| g.name.as_str()).collect();
    assert_eq!(order, vec!["B", "D", "A", "C"]);
}

#[test]
fn high_memory_dedicated_threshold_is_four_gib() {
    let mut g = GPUData::new();
    g.total_memory = HIGH_MEMORY_BYTES;
    assert!(g.is_high_memory_dedicated());
    g.total_memory = HIGH_MEMORY_BYTES - 1;
    assert!(!g.is_high_memory_dedicated());
    g.total_memory = HIGH_MEMORY_BYTES;
    g.is_integrated = true;
    assert!(!g.is_high_memory_dedicated());
}

#[test]
fn gpu_data_constructors() {
    let zero = GPUData::new();
    assert_eq!(zero.name, "");
    assert_eq!(zero.architecture, "");
    assert_eq!(zero.total_memory, 0);
    assert_eq!(zero.driver_version.major, 0);
    assert!(!zero.is_integrated);
    let d = DriverVersionData {
        major: 1,
        minor: 2,
        build: 3,
        revision: 4,
    };
    let g = GPUData::new_with_values(
        String::from("n"),
        String::from("a"),
        5,
        6,
        7,
        8,
        true,
        true,
        9,
        d,
    );
    assert_eq!(g.name, "n");
    assert_eq!(g.architecture, "a");
    assert_eq!(g.vendor_id, 5);
    assert_eq!(g.total_memory, 6);
    assert_eq!(g.free_memory, 7);
    assert_eq!(g.used_memory, 8);
    assert!(g.has_unified_memory);
    assert!(g.is_integrated);
    assert_eq!(g.adapter_index, 9);
    assert_eq!(g.driver_version, d);
}

#[test]
fn parse_driver_version_reads_two_segments() {
    assert_eq!(parse_driver_version("570.86"), Some((570, 86)));
    assert_eq!(parse_driver_version("570.86.15"), Some((570, 86)));
    assert_eq!(parse_driver_version("0.0"), Some((0, 0)));
    assert_eq!(
        parse_driver_version("18446744073709551615.1"),
        Some((u64::MAX, 1))
    );
}

#[test]
fn parse_driver_version_rejects_malformed_text() {
    assert_eq!(parse_driver_version(""), None);
    assert_eq!(parse_driver_version("570"), None);
    assert_eq!(parse_driver_version("570."), None);
    assert_eq!(parse_driver_version(".86"), None);
    assert_eq!(parse_driver_version("a.b"), None);
    assert_eq!(parse_driver_version("57o.86"), None);
    assert_eq!(parse_driver_version("18446744073709551616.1"), None);
}

#[test]
fn conversion_helpers_saturate() {
    assert_eq!(kib_to_bytes(2), 2048);
    assert_eq!(kib_to_bytes(0), 0);
    assert_eq!(kib_to_bytes(u64::MAX), u64::MAX);
    assert_eq!(used_from_total_free(100, 30), 70);
    assert_eq!(used_from_total_free(30, 100), 0);
}

#[test]
fn generic_interface_memory_getters() {
    assert_eq!(GPUUsage::total_gpu_memory(), Ok(0));
    assert_eq!(GPUUsage::has_unified_memory(), Ok(false));
}
