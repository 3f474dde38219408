//! CPU identification: vendor and architecture classification.
//!
//! The platform readings themselves (sysctl values, the first processor's
//! vendor string) are handed in as plain values; the classification logic is
//! verified here.

use vstd::prelude::*;
use crate::text::{str_eq, str_contains, spec_str_contains};

verus! {

/// Entry point for the CPU queries.
pub struct CPUUsage;

#[derive(Clone, Copy, Debug, PartialEq, Eq, Structural)]
pub enum CPUVendor {
    Intel,
    AMD,
    Apple,
    Qualcomm,
    Nvidia,
    // Virtual Machines
    VirtualPC,
    Rosetta2,
    Other,
}

#[derive(Clone, Copy, Debug, PartialEq, Eq, Structural)]
pub enum CPUArchitecture {
    Arm,
    Arm64,
    I386,
    X86_64,
    RiscV32,
    RiscV64,
    Unknown,
}

/// The vendor denoted by a processor vendor-id string.
pub open spec fn spec_vendor_of(id: Seq<char>) -> CPUVendor {
    if id == "GenuineIntel"@ {
        CPUVendor::Intel
    } else if id == "AuthenticAMD"@ {
        CPUVendor::AMD
    } else if id == "Apple"@ {
        CPUVendor::Apple
    } else if id == "Qualcomm"@ {
        CPUVendor::Qualcomm
    } else if id == "Nvidia"@ {
        CPUVendor::Nvidia
    } else if id == "ConnectixCPU"@ || id == "Virtual CPU "@ || id == "Microsoft Hv"@ {
        CPUVendor::VirtualPC
    } else {
        CPUVendor::Other
    }
}

impl CPUVendor {
    /// Maps vendor ID strings to CPUVendor enum variants
    pub fn from_vendor_id(vendor_id: &str) -> (r: Self)
        ensures
            r == spec_vendor_of(vendor_id@),
    {
        if str_eq(vendor_id, "GenuineIntel") {
            CPUVendor::Intel
        } else if str_eq(vendor_id, "AuthenticAMD") {
            CPUVendor::AMD
        } else if str_eq(vendor_id, "Apple") {
            CPUVendor::Apple
        } else if str_eq(vendor_id, "Qualcomm") {
            CPUVendor::Qualcomm
        } else if str_eq(vendor_id, "Nvidia") {
            CPUVendor::Nvidia
        } else if str_eq(vendor_id, "ConnectixCPU") || str_eq(vendor_id, "Virtual CPU ")
            || str_eq(vendor_id, "Microsoft Hv") {
            CPUVendor::VirtualPC
        } else {
            CPUVendor::Other
        }
    }
}

/// The vendor decided from the platform readings: a translated process is
/// reported as Rosetta2 before anything else, an Apple brand string wins
/// next, a missing vendor id means the vendor is unknown, and otherwise the
/// vendor-id string decides.
pub open spec fn spec_cpu_vendor(
    translated: bool,
    brand: Seq<char>,
    vendor_id: Option<Seq<char>>,
) -> CPUVendor {
    if translated {
        CPUVendor::Rosetta2
    } else if spec_str_contains(brand, "Apple"@) {
        CPUVendor::Apple
    } else {
        match vendor_id {
            Some(id) => spec_vendor_of(id),
            None => CPUVendor::Other,
        }
    }
}

impl CPUUsage {
    /// The processor name: the brand-string reading, or a fixed fallback
    /// when the platform gave none.
    pub fn get_name(reading: Option<String>) -> (r: String)
        ensures
            match reading {
                Some(s) => r@ == s@,
                None => r@ == "Unknown CPU"@,
            },
    {
        match reading {
            Some(s) => s,
            None => String::from_str("Unknown CPU"),
        }
    }

    /// Whether the process-translation reading says the code runs translated
    /// on another architecture.
    pub fn is_rosetta2(reading: &Option<String>) -> (r: bool)
        ensures
            r <==> (reading matches Some(v) && v@ == "1"@),
    {
        match reading {
            Some(v) => str_eq(v.as_str(), "1"),
            None => false,
        }
    }

    /// Classifies the vendor from the translation flag, the brand string and
    /// the vendor-id reading.
    pub fn get_cpu_vendor(
        translated: bool,
        brand: &str,
        vendor_id: &Option<String>,
    ) -> (r: CPUVendor)
        ensures
            r == spec_cpu_vendor(
                translated,
                brand@,
                match vendor_id {
                    Some(s) => Some(s@),
                    None => None,
                },
            ),
    {
        if translated {
            return CPUVendor::Rosetta2;
        }
        if str_contains(brand, "Apple") {
            return CPUVendor::Apple;
        }
        match vendor_id {
            Some(id) => CPUVendor::from_vendor_id(id.as_str()),
            None => CPUVendor::Other,
        }
    }

    /// Classifies the architecture from its conventional name.
    pub fn get_architecture(arch: &str) -> (r: CPUArchitecture)
        ensures
            r == spec_architecture_of(arch@),
    {
        if str_eq(arch, "i386") {
            CPUArchitecture::I386
        } else if str_eq(arch, "x86_64") {
            CPUArchitecture::X86_64
        } else if str_eq(arch, "riscv32") {
            CPUArchitecture::RiscV32
        } else if str_eq(arch, "riscv64") {
            CPUArchitecture::RiscV64
        } else if str_eq(arch, "arm") {
            CPUArchitecture::Arm
        } else if str_eq(arch, "arm64") || str_eq(arch, "aarch64") {
            CPUArchitecture::Arm64
        } else {
            CPUArchitecture::Unknown
        }
    }

    /// How many physical cores the machine reports; zero when the
    /// platform cannot say.
    pub fn num_of_cores() -> (r: u32) {
        match crate::sysquery::sys_physical_core_count() {
            Some(c) => #[verifier::truncate] (c as u32),
            None => 0,
        }
    }

    /// How many logical processors the machine reports.
    pub fn logical_processors() -> (r: u32) {
        let mut sys = crate::sysquery::sys_new();
        crate::sysquery::sys_refresh_cpu_all(&mut sys);
        let n: usize = crate::sysquery::sys_cpus_len(&sys);
        #[verifier::truncate] (n as u32)
    }

    /// The first processor's brand string, or empty when the snapshot
    /// holds no processor.
    pub fn get_cpu_name() -> (r: String) {
        let sys = crate::sysquery::sys_new_with_cpu();
        match crate::sysquery::sys_first_cpu_brand(&sys) {
            Some(b) => b,
            None => String::new(),
        }
    }

    /// Classifies the architecture from the numeric code the platform's
    /// system-information call reports.
    pub fn get_cpu_architecture(code: u32) -> (r: CPUArchitecture)
        ensures
            r == spec_architecture_of_code(code),
    {
        match code {
            0u32 => CPUArchitecture::I386,
            5u32 => CPUArchitecture::Arm,
            9u32 => CPUArchitecture::X86_64,
            12u32 => CPUArchitecture::Arm64,
            14u32 => CPUArchitecture::RiscV64,
            _ => CPUArchitecture::Unknown,
        }
    }
}

/// The architecture denoted by a conventional architecture name.
pub open spec fn spec_architecture_of(arch: Seq<char>) -> CPUArchitecture {
    if arch == "i386"@ {
        CPUArchitecture::I386
    } else if arch == "x86_64"@ {
        CPUArchitecture::X86_64
    } else if arch == "riscv32"@ {
        CPUArchitecture::RiscV32
    } else if arch == "riscv64"@ {
        CPUArchitecture::RiscV64
    } else if arch == "arm"@ {
        CPUArchitecture::Arm
    } else if arch == "arm64"@ || arch == "aarch64"@ {
        CPUArchitecture::Arm64
    } else {
        CPUArchitecture::Unknown
    }
}

/// The architecture denoted by the platform's numeric architecture code.
pub open spec fn spec_architecture_of_code(code: u32) -> CPUArchitecture {
    if code == 0 {
        CPUArchitecture::I386
    } else if code == 5 {
        CPUArchitecture::Arm
    } else if code == 9 {
        CPUArchitecture::X86_64
    } else if code == 12 {
        CPUArchitecture::Arm64
    } else if code == 14 {
        CPUArchitecture::RiscV64
    } else {
        CPUArchitecture::Unknown
    }
}

} // verus!
