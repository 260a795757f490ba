//! Telemetry sampling for accelerator devices: per-field fallible device
//! queries, a best-effort one-line report per device, a scan over all
//! devices, and the latest-value snapshot of CPU and GPU temperature.

pub mod text;
pub mod process;
pub mod report;
pub mod device;
pub mod scan;
pub mod mig;
pub mod snapshot;
