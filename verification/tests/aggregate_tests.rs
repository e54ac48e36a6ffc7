use nviwatch::aggregate::aggregate_processes;
use nviwatch::gpu::GpuInfo;
use nviwatch::process::GpuProcessInfo;

const MB: u64 = 1024 * 1024;

fn sample(pid: u32, used_gpu_memory: u64) -> GpuProcessInfo {
    GpuProcessInfo {
        pid,
        used_gpu_memory,
        username: String::from("user"),
        command: String::from("cmd"),
        cpu_usage_tenths: 0,
        memory_usage: 0,
    }
}

fn device(index: usize, processes: Vec<GpuProcessInfo>) -> GpuInfo {
    GpuInfo {
        index,
        name: format!("dev{}", index),
        temperature: 40,
        utilization: 10,
        memory_used: 0,
        memory_total: 0,
        power_usage: 100,
        power_limit: 200,
        clock_freq: 1000,
        processes,
    }
}

#[test]
fn aggregated_order_two_devices() {
    let gpus = vec![
        device(0, vec![sample(10, 500 * MB), sample(11, 100 * MB)]),
        device(1, vec![sample(12, 800 * MB)]),
    ];
    let entries = aggregate_processes(&gpus);
    assert_eq!(entries.len(), 3);
    assert_eq!(entries[0].process.pid, 12);
    assert_eq!(entries[0].process.used_gpu_memory, 800 * MB);
    assert_eq!(entries[0].gpu_index, 1);
    assert_eq!(entries[1].process.pid, 10);
    assert_eq!(entries[1].process.used_gpu_memory, 500 * MB);
    assert_eq!(entries[1].gpu_index, 0);
    assert_eq!(entries[2].process.pid, 11);
    assert_eq!(entries[2].process.used_gpu_memory, 100 * MB);
    assert_eq!(entries[2].gpu_index, 0);
}

#[test]
fn aggregated_memory_never_increases() {
    let gpus = vec![
        device(0, vec![sample(1, 5), sample(2, 9), sample(3, 9)]),
        device(1, vec![sample(4, 7), sample(5, 12)]),
    ];
    let entries = aggregate_processes(&gpus);
    assert_eq!(entries.len(), 5);
    for w in entries.windows(2) {
        assert!(w[0].process.used_gpu_memory >= w[1].process.used_gpu_memory);
    }
}

#[test]
fn aggregated_ties_keep_input_order() {
    let gpus = vec![
        device(0, vec![sample(21, 64), sample(22, 64)]),
        device(1, vec![sample(23, 64)]),
    ];
    let entries = aggregate_processes(&gpus);
    assert_eq!(entries.len(), 3);
    assert_eq!(entries[0].process.pid, 21);
    assert_eq!(entries[1].process.pid, 22);
    assert_eq!(entries[2].process.pid, 23);
}

#[test]
fn aggregated_empty_devices() {
    let gpus: Vec<GpuInfo> = Vec::new();
    let entries = aggregate_processes(&gpus);
    assert!(entries.is_empty());
    let gpus = vec![device(0, Vec::new()), device(1, Vec::new())];
    let entries = aggregate_processes(&gpus);
    assert!(entries.is_empty());
}

#[test]
fn aggregated_one_process_per_device_share() {
    // One process on two devices yields two entries, one per device.
    let gpus = vec![
        device(0, vec![sample(77, 300)]),
        device(1, vec![sample(77, 400)]),
    ];
    let entries = aggregate_processes(&gpus);
    assert_eq!(entries.len(), 2);
    assert_eq!(entries[0].process.pid, 77);
    assert_eq!(entries[0].gpu_index, 1);
    assert_eq!(entries[0].process.used_gpu_memory, 400);
    assert_eq!(entries[1].process.pid, 77);
    assert_eq!(entries[1].gpu_index, 0);
    assert_eq!(entries[1].process.used_gpu_memory, 300);
}
