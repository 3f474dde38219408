//! Hardware telemetry library centred on a verified GPU discovery and
//! reconciliation engine.
//!
//! The platform's native enumeration interfaces deliver raw adapter
//! descriptors; the engine merges the partial, inconsistently keyed results
//! into canonical per-adapter records, enriches them through vendor detail
//! queries with graceful fallback, estimates memory figures the platform does
//! not expose directly, and ranks the records to choose a primary adapter.

pub mod cpu;
pub mod gpu;
pub mod macos;
pub mod memory;
pub mod npu;
pub mod soc;
mod sysquery;
pub mod text;

pub use crate::cpu::CPUUsage as CPUStats;
pub use crate::gpu::GPUUsage as GPUStats;
pub use crate::memory::MemoryUsage as MemoryStats;
pub use crate::npu::NPUUsage as NPUStats;
pub use crate::soc::SocDetails;
