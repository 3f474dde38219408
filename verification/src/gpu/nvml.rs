//! Trusted bindings to the NVIDIA management library.
//!
//! Every wrapper turns the library's failure into `None`; what a call
//! returns depends on the machine's driver and devices, so nothing more is
//! promised of the results. The verified vendor query composes these calls
//! and falls back on the first `None`.

use vstd::prelude::*;
use nvml_wrapper::{Device, Nvml};

verus! {

#[verifier::external_type_specification]
#[verifier::external_body]
pub struct ExNvml(Nvml);

#[verifier::external_type_specification]
#[verifier::external_body]
pub struct ExDevice<'nvml>(Device<'nvml>);

/// Relies on nvml_wrapper::Nvml::init: loads and initialises the NVIDIA
/// management library; fails where no driver is running.
#[verifier::external_body]
pub(crate) fn nvml_init() -> (r: Option<Nvml>) {
    Nvml::init().ok()
}

/// Relies on nvml_wrapper::Nvml::sys_driver_version: the running graphics
/// driver's version as text.
#[verifier::external_body]
pub(crate) fn nvml_sys_driver_version(nvml: &Nvml) -> (r: Option<String>) {
    nvml.sys_driver_version().ok()
}

/// Relies on nvml_wrapper::Nvml::device_by_index: the handle of the
/// device at the given enumeration index.
#[verifier::external_body]
pub(crate) fn nvml_device_by_index<'nvml>(nvml: &'nvml Nvml, index: u32) -> (r: Option<
    Device<'nvml>,
>) {
    nvml.device_by_index(index).ok()
}

/// Relies on nvml_wrapper::Device::name: the device's product name.
#[verifier::external_body]
pub(crate) fn nvml_device_name(device: &Device<'_>) -> (r: Option<String>) {
    device.name().ok()
}

/// Relies on nvml_wrapper::Device::architecture, rendered through its
/// standard text form: the device's architecture tag.
#[verifier::external_body]
pub(crate) fn nvml_device_architecture(device: &Device<'_>) -> (r: Option<String>) {
    match device.architecture() {
        Ok(a) => Some(a.to_string()),
        Err(_) => None,
    }
}

/// Relies on nvml_wrapper::Device::memory_info: the device's total, used
/// and free framebuffer memory in bytes.
#[verifier::external_body]
pub(crate) fn nvml_device_memory_info(device: &Device<'_>) -> (r: Option<(u64, u64, u64)>) {
    match device.memory_info() {
        Ok(m) => Some((m.total, m.used, m.free)),
        Err(_) => None,
    }
}

} // verus!
