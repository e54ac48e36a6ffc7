//! The telemetry source: trusted declarations of the NVML bindings, and the
//! device sampler that drives one tick's device pass.
//!
//! Telemetry is machine state, so the wrappers promise nothing about the
//! values they hand back. The sampler's own guarantee is structural: it
//! yields one fully formed snapshot, devices in index order, or fails as a
//! whole on the first device-level error.

use crate::gpu::GpuInfo;
use crate::gpu::build_gpu_info;
use crate::proc_table::get_process_info;
use crate::process::GpuProcessInfo;
use vstd::prelude::*;

verus! {

/// The initialized NVML library handle.
#[verifier::external_type_specification]
#[verifier::external_body]
pub struct ExNvml(nvml_wrapper::Nvml);

/// One accelerator device exposed by NVML.
#[verifier::external_type_specification]
#[verifier::external_body]
pub struct ExDevice<'nvml>(nvml_wrapper::Device<'nvml>);

/// NVML's error type.
#[verifier::external_type_specification]
#[verifier::external_body]
pub struct ExNvmlError(nvml_wrapper::error::NvmlError);

/// A device-level telemetry call failed; the whole tick is abandoned.
#[derive(Debug)]
pub struct SampleError {
    /// The driver's description of the failure.
    pub message: String,
}

/// Relies on nvml_wrapper::Nvml::device_count: how many devices the driver
/// reports.
#[verifier::external_body]
fn nvml_device_count(nvml: &nvml_wrapper::Nvml) -> (r: Result<
    u32,
    nvml_wrapper::error::NvmlError,
>) {
    nvml.device_count()
}

/// Relies on nvml_wrapper::Nvml::device_by_index: a handle on the device
/// with that index.
#[verifier::external_body]
fn nvml_device_by_index<'nvml>(nvml: &'nvml nvml_wrapper::Nvml, index: u32) -> (r: Result<
    nvml_wrapper::Device<'nvml>,
    nvml_wrapper::error::NvmlError,
>) {
    nvml.device_by_index(index)
}

/// Relies on nvml_wrapper::Device::name: the device's name.
#[verifier::external_body]
fn device_name(d: &nvml_wrapper::Device<'_>) -> (r: Result<
    String,
    nvml_wrapper::error::NvmlError,
>) {
    d.name()
}

/// Relies on nvml_wrapper::Device::temperature of the GPU sensor, in degrees
/// Celsius.
#[verifier::external_body]
fn device_temperature(d: &nvml_wrapper::Device<'_>) -> (r: Result<
    u32,
    nvml_wrapper::error::NvmlError,
>) {
    d.temperature(nvml_wrapper::enum_wrappers::device::TemperatureSensor::Gpu)
}

/// Relies on nvml_wrapper::Device::utilization_rates: the GPU utilization
/// sample, in percent.
#[verifier::external_body]
fn device_utilization(d: &nvml_wrapper::Device<'_>) -> (r: Result<
    u32,
    nvml_wrapper::error::NvmlError,
>) {
    d.utilization_rates().map(|u| u.gpu)
}

/// Relies on nvml_wrapper::Device::memory_info: used and total device
/// memory, in bytes, in that order.
#[verifier::external_body]
fn device_memory_info(d: &nvml_wrapper::Device<'_>) -> (r: Result<
    (u64, u64),
    nvml_wrapper::error::NvmlError,
>) {
    d.memory_info().map(|m| (m.used, m.total))
}

/// Relies on nvml_wrapper::Device::power_usage: the device's power draw, in
/// milliwatts.
#[verifier::external_body]
fn device_power_usage(d: &nvml_wrapper::Device<'_>) -> (r: Result<
    u32,
    nvml_wrapper::error::NvmlError,
>) {
    d.power_usage()
}

/// Relies on nvml_wrapper::Device::enforced_power_limit: the power limit the
/// driver enforces, in milliwatts.
#[verifier::external_body]
fn device_power_limit(d: &nvml_wrapper::Device<'_>) -> (r: Result<
    u32,
    nvml_wrapper::error::NvmlError,
>) {
    d.enforced_power_limit()
}

/// Relies on nvml_wrapper::Device::clock_info of the graphics clock, in
/// megahertz.
#[verifier::external_body]
fn device_clock_freq(d: &nvml_wrapper::Device<'_>) -> (r: Result<
    u32,
    nvml_wrapper::error::NvmlError,
>) {
    d.clock_info(nvml_wrapper::enum_wrappers::device::Clock::Graphics)
}

/// Relies on nvml_wrapper::Device::running_compute_processes: pid and
/// attributed memory of each compute process on the device; the memory is
/// nothing where the driver reports it unavailable.
#[verifier::external_body]
fn device_compute_processes(d: &nvml_wrapper::Device<'_>) -> (r: Result<
    Vec<(u32, Option<u64>)>,
    nvml_wrapper::error::NvmlError,
>) {
    let share = |p: nvml_wrapper::struct_wrappers::device::ProcessInfo| match p.used_gpu_memory {
        nvml_wrapper::enums::device::UsedGpuMemory::Used(bytes) => (p.pid, Some(bytes)),
        nvml_wrapper::enums::device::UsedGpuMemory::Unavailable => (p.pid, None),
    };
    d.running_compute_processes().map(|v| v.into_iter().map(share).collect())
}

/// Relies on nvml_wrapper::Device::running_graphics_processes: pid and
/// attributed memory of each graphics process on the device; the memory is
/// nothing where the driver reports it unavailable.
#[verifier::external_body]
fn device_graphics_processes(d: &nvml_wrapper::Device<'_>) -> (r: Result<
    Vec<(u32, Option<u64>)>,
    nvml_wrapper::error::NvmlError,
>) {
    let share = |p: nvml_wrapper::struct_wrappers::device::ProcessInfo| match p.used_gpu_memory {
        nvml_wrapper::enums::device::UsedGpuMemory::Used(bytes) => (p.pid, Some(bytes)),
        nvml_wrapper::enums::device::UsedGpuMemory::Unavailable => (p.pid, None),
    };
    d.running_graphics_processes().map(|v| v.into_iter().map(share).collect())
}

/// Relies on the Display impl of nvml_wrapper::error::NvmlError: the
/// driver's description of the failure.
#[verifier::external_body]
fn nvml_error_message(e: &nvml_wrapper::error::NvmlError) -> (r: String) {
    format!("{}", e)
}

fn sample_error(e: &nvml_wrapper::error::NvmlError) -> (r: SampleError) {
    SampleError { message: nvml_error_message(e) }
}

/// The memory share a report attributes to a process: the reported bytes,
/// or zero where the driver could not tell.
pub open spec fn spec_reported_share(mem: Option<u64>) -> u64 {
    match mem {
        Some(bytes) => bytes,
        None => 0,
    }
}

/// One resolution pass over a reported list turned `before` into `after`:
/// the appended samples come from the reported positions `sel`, each
/// reported entry at most once, in reported order, every sample carrying
/// that entry's pid and memory share, and the prior samples untouched.
pub open spec fn resolution_trace(
    reported: Seq<(u32, Option<u64>)>,
    before: Seq<GpuProcessInfo>,
    after: Seq<GpuProcessInfo>,
    sel: Seq<int>,
) -> bool {
    &&& after.len() == before.len() + sel.len()
    &&& after.subrange(0, before.len() as int) == before
    &&& forall|k: int| 0 <= k < sel.len() ==> 0 <= #[trigger] sel[k] < reported.len()
    &&& forall|k1: int, k2: int| 0 <= k1 < k2 < sel.len() ==> sel[k1] < sel[k2]
    &&& forall|k: int|
        0 <= k < sel.len() ==> (#[trigger] after[before.len() + k]).pid == reported[sel[k]].0
            && after[before.len() + k].used_gpu_memory == spec_reported_share(reported[sel[k]].1)
}

/// Resolve every process of one reported list through the process table,
/// appending the resolved samples to `out` in reported order; a pid the
/// table cannot resolve is silently dropped, and no reported entry yields
/// more than one sample.
fn resolve_processes(reported: &Vec<(u32, Option<u64>)>, out: &mut Vec<GpuProcessInfo>)
    ensures
        exists|sel: Seq<int>|
            #[trigger] resolution_trace(reported@, old(out)@, final(out)@, sel),
{
    let ghost base = out@;
    let ghost mut sel = Seq::<int>::empty();
    proof {
        assert(out@.subrange(0, base.len() as int) =~= base);
    }
    let mut i: usize = 0;
    while i < reported.len()
        invariant
            0 <= i <= reported@.len(),
            base == old(out)@,
            resolution_trace(reported@, base, out@, sel),
            forall|k: int| 0 <= k < sel.len() ==> #[trigger] sel[k] < i,
        decreases reported@.len() - i,
    {
        let (pid, mem) = reported[i];
        let share = match mem {
            Some(bytes) => bytes,
            None => 0,
        };
        match get_process_info(pid, share) {
            Some(info) => {
                proof {
                    assert(info.pid == reported@[i as int].0 && info.used_gpu_memory
                        == spec_reported_share(reported@[i as int].1));
                }
                out.push(info);
                proof {
                    let grown = sel.push(i as int);
                    assert(out@.subrange(0, base.len() as int) =~= base);
                    assert forall|k: int| 0 <= k < grown.len() implies (#[trigger] out@[base.len()
                        + k]).pid == reported@[grown[k]].0 && out@[base.len()
                        + k].used_gpu_memory == spec_reported_share(reported@[grown[k]].1) by {
                        if k < sel.len() {
                            assert(out@[base.len() + k] == out@.drop_last()[base.len() + k]);
                            assert(grown[k] == sel[k]);
                        }
                    }
                    sel = grown;
                }
            },
            None => {},
        }
        i += 1;
    }
    proof {
        assert(resolution_trace(reported@, old(out)@, out@, sel));
    }
}

/// Sample one device: every device-level field, then both process lists
/// resolved through the process table (compute processes first). Any
/// device-level failure fails the sample as a whole.
fn sample_device(device: &nvml_wrapper::Device<'_>, index: usize) -> (r: Result<
    GpuInfo,
    SampleError,
>)
    ensures
        r matches Ok(g) ==> g.index == index,
{
    let name = match device_name(device) {
        Ok(v) => v,
        Err(e) => {
            return Err(sample_error(&e));
        },
    };
    let temperature = match device_temperature(device) {
        Ok(v) => v,
        Err(e) => {
            return Err(sample_error(&e));
        },
    };
    let utilization = match device_utilization(device) {
        Ok(v) => v,
        Err(e) => {
            return Err(sample_error(&e));
        },
    };
    let (memory_used, memory_total) = match device_memory_info(device) {
        Ok(v) => v,
        Err(e) => {
            return Err(sample_error(&e));
        },
    };
    let power_usage_milliwatts = match device_power_usage(device) {
        Ok(v) => v,
        Err(e) => {
            return Err(sample_error(&e));
        },
    };
    let power_limit_milliwatts = match device_power_limit(device) {
        Ok(v) => v,
        Err(e) => {
            return Err(sample_error(&e));
        },
    };
    let clock_freq = match device_clock_freq(device) {
        Ok(v) => v,
        Err(e) => {
            return Err(sample_error(&e));
        },
    };
    let compute = match device_compute_processes(device) {
        Ok(v) => v,
        Err(e) => {
            return Err(sample_error(&e));
        },
    };
    let graphics = match device_graphics_processes(device) {
        Ok(v) => v,
        Err(e) => {
            return Err(sample_error(&e));
        },
    };
    let mut processes: Vec<GpuProcessInfo> = Vec::new();
    resolve_processes(&compute, &mut processes);
    resolve_processes(&graphics, &mut processes);
    Ok(
        build_gpu_info(
            index,
            name,
            temperature,
            utilization,
            memory_used,
            memory_total,
            power_usage_milliwatts,
            power_limit_milliwatts,
            clock_freq,
            processes,
        ),
    )
}

/// One full device pass: for every index below the driver's device count,
/// all device-level fields and both resolved process lists. The pass fails
/// as a whole on the first device-level failure — a partial snapshot is
/// never produced. On success the devices come back in index order.
pub fn collect_gpu_info(nvml: &nvml_wrapper::Nvml) -> (r: Result<Vec<GpuInfo>, SampleError>)
    ensures
        r matches Ok(gpus) ==> forall|i: int|
            0 <= i < gpus@.len() ==> (#[trigger] gpus@[i]).index == i,
{
    let count = match nvml_device_count(nvml) {
        Ok(c) => c,
        Err(e) => {
            return Err(sample_error(&e));
        },
    };
    let mut gpus: Vec<GpuInfo> = Vec::new();
    let mut index: u32 = 0;
    while index < count
        invariant
            gpus@.len() == index,
            forall|i: int| 0 <= i < gpus@.len() ==> (#[trigger] gpus@[i]).index == i,
        decreases count - index,
    {
        let device = match nvml_device_by_index(nvml, index) {
            Ok(d) => d,
            Err(e) => {
                return Err(sample_error(&e));
            },
        };
        let info = match sample_device(&device, index as usize) {
            Ok(g) => g,
            Err(e) => {
                return Err(e);
            },
        };
        gpus.push(info);
        index += 1;
    }
    Ok(gpus)
}

} // verus!
