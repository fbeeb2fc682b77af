//! Host resource sampling: raw counter snapshots from a statistics subsystem,
//! turned into normalized utilization ratios over time.
//!
//! The library owns the logic: delta computation from monotonic CPU counters,
//! instantaneous memory gauges, exact rational utilization values, and the
//! shared init/close lifecycle of the underlying subsystem. Querying the
//! subsystem itself (a native collaborator) is the caller's part: it hands
//! fresh snapshots and timestamps in, and performs the lifecycle actions the
//! lease registry decides on.

pub mod cpu;
pub mod glibtop_handle;
pub mod memory;
pub mod percent_usage;

pub use cpu::Cpu;
pub use cpu::CpuSnapshot;
pub use glibtop_handle::GLibTopHandle;
pub use glibtop_handle::LeaseEvent;
pub use glibtop_handle::SubsystemAction;
pub use glibtop_handle::SubsystemState;
pub use memory::Memory;
pub use memory::MemorySnapshot;
pub use percent_usage::MeasureError;
pub use percent_usage::PercentUsage;
pub use percent_usage::Ratio;
