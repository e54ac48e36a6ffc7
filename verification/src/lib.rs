//! Sampling-and-state engine for a live accelerator-device dashboard.
//!
//! The library drives one synchronous tick at a time: it samples every device
//! of the telemetry source, resolves the owning process of each reported
//! process id, retains a bounded history of power and utilization for
//! charting, aggregates all devices' processes into one globally sorted
//! sequence, and maps a user selection into that sequence for termination.
//! Rendering and input handling live outside the library and only read the
//! state it produces.

pub mod aggregate;
pub mod app_state;
pub mod formatting;
pub mod gpu;
pub mod history;
pub mod proc_table;
pub mod process;
pub mod telemetry;
pub mod terminate;
