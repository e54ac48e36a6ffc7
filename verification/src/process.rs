//! The per-process sample and the arithmetic that resolves one.
//!
//! A process using several devices yields one sample per device, each with
//! its own GPU-memory share; samples are never deduplicated.

use vstd::prelude::*;

verus! {

/// Per-device resource usage of one process, fully resolved through the
/// process table.
#[derive(Clone, Debug)]
pub struct GpuProcessInfo {
    /// Process id.
    pub pid: u32,
    /// GPU memory attributed to the process on the originating device, in bytes.
    pub used_gpu_memory: u64,
    /// Name of the owning user.
    pub username: String,
    /// Command line, arguments joined by single spaces.
    pub command: String,
    /// Lifetime-average CPU utilization, in tenths of a percent.
    pub cpu_usage_tenths: u64,
    /// Resident set size, in bytes.
    pub memory_usage: u64,
}

/// Lifetime-average CPU utilization in tenths of a percent:
/// `total_ticks / ticks_per_second / uptime_seconds * 100`, scaled by ten and
/// truncated; 0 when the denominator is 0, saturated when the quotient does
/// not fit. This is an average over the whole life of the process, not an
/// interval delta.
pub open spec fn spec_cpu_usage_tenths(
    total_ticks: u64,
    ticks_per_second: u64,
    uptime_seconds: u64,
) -> u64 {
    let denom = (ticks_per_second as int) * (uptime_seconds as int);
    if denom == 0 {
        0u64
    } else {
        let tenths = (total_ticks as int) * 1000 / denom;
        if tenths > u64::MAX {
            u64::MAX
        } else {
            tenths as u64
        }
    }
}

/// Resident memory in bytes from a page count, at 4096 bytes per page,
/// saturated when it does not fit.
pub open spec fn spec_resident_bytes(rss_pages: u64) -> u64 {
    if (rss_pages as int) * 4096 > u64::MAX {
        u64::MAX
    } else {
        (rss_pages * 4096) as u64
    }
}

/// Cumulative CPU time of a process: user ticks plus system ticks, saturated.
pub open spec fn spec_total_ticks(utime: u64, stime: u64) -> u64 {
    if (utime as int) + (stime as int) > u64::MAX {
        u64::MAX
    } else {
        (utime + stime) as u64
    }
}

pub fn cpu_usage_tenths(total_ticks: u64, ticks_per_second: u64, uptime_seconds: u64) -> (r: u64)
    ensures
        r == spec_cpu_usage_tenths(total_ticks, ticks_per_second, uptime_seconds),
{
    proof {
        vstd::arithmetic::mul::lemma_mul_upper_bound(
            ticks_per_second as int,
            u64::MAX as int,
            uptime_seconds as int,
            u64::MAX as int,
        );
    }
    let denom: u128 = (ticks_per_second as u128) * (uptime_seconds as u128);
    if denom == 0 {
        0
    } else {
        let tenths: u128 = (total_ticks as u128) * 1000 / denom;
        if tenths > u64::MAX as u128 {
            u64::MAX
        } else {
            tenths as u64
        }
    }
}

pub fn resident_bytes(rss_pages: u64) -> (r: u64)
    ensures
        r == spec_resident_bytes(rss_pages),
{
    if rss_pages > u64::MAX / 4096 {
        u64::MAX
    } else {
        rss_pages * 4096
    }
}

pub fn total_ticks(utime: u64, stime: u64) -> (r: u64)
    ensures
        r == spec_total_ticks(utime, stime),
{
    if utime > u64::MAX - stime {
        u64::MAX
    } else {
        utime + stime
    }
}

/// Assemble one sample from the raw values the telemetry source and the
/// process table reported.
pub fn build_process_info(
    pid: u32,
    used_gpu_memory: u64,
    username: String,
    command: String,
    utime: u64,
    stime: u64,
    ticks_per_second: u64,
    uptime_seconds: u64,
    rss_pages: u64,
) -> (r: GpuProcessInfo)
    ensures
        r.pid == pid,
        r.used_gpu_memory == used_gpu_memory,
        r.username == username,
        r.command == command,
        r.cpu_usage_tenths == spec_cpu_usage_tenths(
            spec_total_ticks(utime, stime),
            ticks_per_second,
            uptime_seconds,
        ),
        r.memory_usage == spec_resident_bytes(rss_pages),
{
    let ticks = total_ticks(utime, stime);
    GpuProcessInfo {
        pid,
        used_gpu_memory,
        username,
        command,
        cpu_usage_tenths: cpu_usage_tenths(ticks, ticks_per_second, uptime_seconds),
        memory_usage: resident_bytes(rss_pages),
    }
}

impl GpuProcessInfo {
    /// A copy equal to `self`, field for field.
    pub fn duplicate(&self) -> (r: GpuProcessInfo)
        ensures
            r == *self,
    {
        GpuProcessInfo {
            pid: self.pid,
            used_gpu_memory: self.used_gpu_memory,
            username: self.username.clone(),
            command: self.command.clone(),
            cpu_usage_tenths: self.cpu_usage_tenths,
            memory_usage: self.memory_usage,
        }
    }
}

} // verus!
