//! Point-in-time CPU and memory readings of the host, taken through `sysinfo`.
//!
//! The crate owns the reading of a handle's counters and the edge cases of the
//! two snapshot records. Usage percentages travel through it as IEEE 754
//! single-precision bit patterns, so that every function here is integer code.

pub mod handle;
pub mod host;
pub mod snapshot;

pub use handle::{Counters, MetricsHandle};
pub use snapshot::{
    CpuInfo, CpuInfoView, MemoryInfo, MemoryReading, FULL_PERCENT, ZERO_PERCENT,
};
