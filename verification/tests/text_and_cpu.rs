use sys_stats::cpu::{CPUArchitecture, CPUUsage, CPUVendor};
use sys_stats::npu::NPUUsage;
use sys_stats::soc::SocDetails;
use sys_stats::text::{
    adapter_memory_counter_path, format_hex32, format_u32, join_from, luid_to_string,
    str_contains, str_eq, to_utf16, wide_to_string,
};

#[test]
fn str_eq_compares_characters() {
    assert!(str_eq("", ""));
    assert!(str_eq("abc", "abc"));
    assert!(!str_eq("abc", "abd"));
    assert!(!str_eq("abc", "abcd"));
    assert!(str_eq("naïve", "naïve"));
}

#[test]
fn str_contains_finds_substrings() {
    assert!(str_contains("NVIDIA GeForce", "NVIDIA"));
    assert!(str_contains("abc", ""));
    assert!(str_contains("abc", "c"));
    assert!(!str_contains("abc", "abcd"));
    assert!(!str_contains("", "a"));
    assert!(str_contains("aab", "ab"));
}

#[test]
fn format_u32_renders_decimal() {
    assert_eq!(format_u32(0), "0");
    assert_eq!(format_u32(7), "7");
    assert_eq!(format_u32(40), "40");
    assert_eq!(format_u32(1234), "1234");
    assert_eq!(format_u32(u32::MAX), "4294967295");
}

#[test]
fn format_hex32_renders_eight_digits() {
    assert_eq!(format_hex32(0xDEADBEEF), "DEADBEEF");
    assert_eq!(format_hex32(5), "00000005");
    assert_eq!(format_hex32(0), "00000000");
    assert_eq!(format_hex32(0x1234ABCD), "1234ABCD");
}

#[test]
fn luid_renders_in_counter_instance_shape() {
    assert_eq!(
        luid_to_string(0x1234ABCD, 0x5678),
        "luid_0x1234ABCD_0x00005678"
    );
    assert_eq!(luid_to_string(0, 0), "luid_0x00000000_0x00000000");
}

#[test]
fn counter_paths_take_the_platform_shape() {
    let instance = luid_to_string(0, 0x1C);
    assert_eq!(
        adapter_memory_counter_path(&instance, "Dedicated Usage"),
        "\\GPU Adapter Memory(luid_0x00000000_0x0000001C*)\\Dedicated Usage"
    );
    assert_eq!(
        adapter_memory_counter_path(&instance, "Shared Usage"),
        "\\GPU Adapter Memory(luid_0x00000000_0x0000001C*)\\Shared Usage"
    );
}

#[test]
fn utf16_encoding_appends_terminator() {
    assert_eq!(to_utf16("AB"), vec![65u16, 66, 0]);
    assert_eq!(to_utf16(""), vec![0u16]);
    // a supplementary-plane character takes a surrogate pair
    assert_eq!(to_utf16("\u{1D11E}"), vec![0xD834u16, 0xDD1E, 0]);
}

#[test]
fn wide_buffer_decodes_up_to_first_zero() {
    assert_eq!(wide_to_string(&[72, 105, 0, 88]), "Hi");
    assert_eq!(wide_to_string(&[72, 105]), "Hi");
    assert_eq!(wide_to_string(&[0, 72]), "");
    assert_eq!(wide_to_string(&[]), "");
}

#[test]
fn join_from_rebuilds_display_names() {
    let parts: Vec<String> = vec![
        String::from("00:02.0"),
        String::from("VGA"),
        String::from("Intel"),
        String::from("UHD"),
        String::from("Graphics"),
    ];
    assert_eq!(join_from(&parts, 2), "Intel UHD Graphics");
    assert_eq!(join_from(&parts, 4), "Graphics");
    assert_eq!(join_from(&parts, 5), "");
}

#[test]
fn vendor_ids_map_to_vendors() {
    assert!(matches!(
        CPUVendor::from_vendor_id("GenuineIntel"),
        CPUVendor::Intel
    ));
    assert!(matches!(
        CPUVendor::from_vendor_id("AuthenticAMD"),
        CPUVendor::AMD
    ));
    assert!(matches!(
        CPUVendor::from_vendor_id("Apple"),
        CPUVendor::Apple
    ));
    assert!(matches!(
        CPUVendor::from_vendor_id("Qualcomm"),
        CPUVendor::Qualcomm
    ));
    assert!(matches!(
        CPUVendor::from_vendor_id("Nvidia"),
        CPUVendor::Nvidia
    ));
    assert!(matches!(
        CPUVendor::from_vendor_id("ConnectixCPU"),
        CPUVendor::VirtualPC
    ));
    assert!(matches!(
        CPUVendor::from_vendor_id("Virtual CPU "),
        CPUVendor::VirtualPC
    ));
    assert!(matches!(
        CPUVendor::from_vendor_id("Microsoft Hv"),
        CPUVendor::VirtualPC
    ));
    assert!(matches!(
        CPUVendor::from_vendor_id("SomethingElse"),
        CPUVendor::Other
    ));
}

#[test]
fn cpu_vendor_decision_order() {
    assert!(matches!(
        CPUUsage::get_cpu_vendor(true, "Apple M2", &Some(String::from("GenuineIntel"))),
        CPUVendor::Rosetta2
    ));
    assert!(matches!(
        CPUUsage::get_cpu_vendor(false, "Apple M2", &None),
        CPUVendor::Apple
    ));
    assert!(matches!(
        CPUUsage::get_cpu_vendor(false, "Xeon", &Some(String::from("GenuineIntel"))),
        CPUVendor::Intel
    ));
    assert!(matches!(
        CPUUsage::get_cpu_vendor(false, "Xeon", &None),
        CPUVendor::Other
    ));
}

#[test]
fn rosetta_reading_must_be_exactly_one() {
    assert!(CPUUsage::is_rosetta2(&Some(String::from("1"))));
    assert!(!CPUUsage::is_rosetta2(&Some(String::from("0"))));
    assert!(!CPUUsage::is_rosetta2(&Some(String::from("1 "))));
    assert!(!CPUUsage::is_rosetta2(&None));
}

#[test]
fn cpu_name_falls_back_when_unreadable() {
    assert_eq!(CPUUsage::get_name(Some(String::from("Apple M2"))), "Apple M2");
    assert_eq!(CPUUsage::get_name(None), "Unknown CPU");
}

#[test]
fn architecture_names_classify() {
    assert!(matches!(
        CPUUsage::get_architecture("x86_64"),
        CPUArchitecture::X86_64
    ));
    assert!(matches!(
        CPUUsage::get_architecture("i386"),
        CPUArchitecture::I386
    ));
    assert!(matches!(
        CPUUsage::get_architecture("arm64"),
        CPUArchitecture::Arm64
    ));
    assert!(matches!(
        CPUUsage::get_architecture("aarch64"),
        CPUArchitecture::Arm64
    ));
    assert!(matches!(
        CPUUsage::get_architecture("arm"),
        CPUArchitecture::Arm
    ));
    assert!(matches!(
        CPUUsage::get_architecture("riscv32"),
        CPUArchitecture::RiscV32
    ));
    assert!(matches!(
        CPUUsage::get_architecture("riscv64"),
        CPUArchitecture::RiscV64
    ));
    assert!(matches!(
        CPUUsage::get_architecture("mips"),
        CPUArchitecture::Unknown
    ));
}

#[test]
fn architecture_codes_classify() {
    assert!(matches!(
        CPUUsage::get_cpu_architecture(0),
        CPUArchitecture::I386
    ));
    assert!(matches!(
        CPUUsage::get_cpu_architecture(5),
        CPUArchitecture::Arm
    ));
    assert!(matches!(
        CPUUsage::get_cpu_architecture(9),
        CPUArchitecture::X86_64
    ));
    assert!(matches!(
        CPUUsage::get_cpu_architecture(12),
        CPUArchitecture::Arm64
    ));
    assert!(matches!(
        CPUUsage::get_cpu_architecture(14),
        CPUArchitecture::RiscV64
    ));
    assert!(matches!(
        CPUUsage::get_cpu_architecture(3),
        CPUArchitecture::Unknown
    ));
}

#[test]
fn npu_assumed_on_arm64_only() {
    assert!(NPUUsage::is_npu_available("arm64"));
    assert!(!NPUUsage::is_npu_available("x86_64"));
    assert!(!NPUUsage::is_npu_available(""));
}

#[test]
fn npu_platform_details_are_fixed() {
    let (arch, vendor) = NPUUsage::get_platform_details();
    assert_eq!(arch, "x64");
    assert_eq!(vendor, "Intel");
}

#[test]
fn soc_entry_selection_matches_name_and_cores() {
    let names = vec![
        String::from("Apple M1"),
        String::from("Apple M2"),
        String::from("Apple M2"),
    ];
    let cores = vec![8u32, 8, 10];
    assert_eq!(SocDetails::find_soc_entry(&names, &cores, "Apple M2", 10), Some(2));
    assert_eq!(SocDetails::find_soc_entry(&names, &cores, "Apple M2", 8), Some(1));
    assert_eq!(SocDetails::find_soc_entry(&names, &cores, "Apple M3", 8), None);
    assert_eq!(SocDetails::find_soc_entry(&names, &cores, "Apple M1", 10), None);
}
