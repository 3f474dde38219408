//! NPU availability.
//!
//! The platform hands in its architecture reading; the availability decision
//! is verified here.

use vstd::prelude::*;
use crate::text::str_eq;

verus! {

/// Entry point for the NPU queries.
pub struct NPUUsage;

impl NPUUsage {
    /// Whether an NPU is assumed present: exactly on 64-bit Arm machines,
    /// where every supported device ships one.
    pub fn is_npu_available(arch: &str) -> (r: bool)
        ensures
            r <==> arch@ == "arm64"@,
    {
        str_eq(arch, "arm64")
    }

    /// The platform details the capability queries assume when the platform
    /// offers no finer reading.
    pub fn get_platform_details() -> (r: (String, String))
        ensures
            r.0@ == "x64"@,
            r.1@ == "Intel"@,
    {
        (String::from_str("x64"), String::from_str("Intel"))
    }
}

} // verus!
