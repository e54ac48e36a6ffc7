//! The per-device snapshot produced by one successful tick.

use crate::process::GpuProcessInfo;
use vstd::prelude::*;

verus! {

/// Everything one tick learned about one device. Recreated wholesale on every
/// successful tick, never mutated in place.
#[derive(Debug)]
pub struct GpuInfo {
    /// Device index, stable within one tick.
    pub index: usize,
    /// Device name.
    pub name: String,
    /// Temperature of the main sensor, in degrees Celsius.
    pub temperature: u32,
    /// Utilization, in percent.
    pub utilization: u32,
    /// Memory in use, in bytes.
    pub memory_used: u64,
    /// Memory installed, in bytes.
    pub memory_total: u64,
    /// Power draw, in watts.
    pub power_usage: u32,
    /// Enforced power limit, in watts.
    pub power_limit: u32,
    /// Graphics clock frequency, in megahertz.
    pub clock_freq: u32,
    /// Resolved compute processes followed by resolved graphics processes.
    pub processes: Vec<GpuProcessInfo>,
}

/// Assemble one device record from the raw values the telemetry source
/// reported: every field passes through unchanged, except the two power
/// readings, which arrive in milliwatts and are converted to whole watts.
pub fn build_gpu_info(
    index: usize,
    name: String,
    temperature: u32,
    utilization: u32,
    memory_used: u64,
    memory_total: u64,
    power_usage_milliwatts: u32,
    power_limit_milliwatts: u32,
    clock_freq: u32,
    processes: Vec<GpuProcessInfo>,
) -> (g: GpuInfo)
    ensures
        g.index == index,
        g.name == name,
        g.temperature == temperature,
        g.utilization == utilization,
        g.memory_used == memory_used,
        g.memory_total == memory_total,
        g.power_usage == power_usage_milliwatts / 1000,
        g.power_limit == power_limit_milliwatts / 1000,
        g.clock_freq == clock_freq,
        g.processes == processes,
{
    GpuInfo {
        index,
        name,
        temperature,
        utilization,
        memory_used,
        memory_total,
        power_usage: power_usage_milliwatts / 1000,
        power_limit: power_limit_milliwatts / 1000,
        clock_freq,
        processes,
    }
}

} // verus!
