use nviwatch::gpu::build_gpu_info;
use nviwatch::process::GpuProcessInfo;

#[test]
fn device_record_converts_milliwatts_to_watts() {
    let g = build_gpu_info(
        3,
        String::from("Accelerator"),
        61,
        87,
        4096,
        8192,
        153_999,
        250_000,
        1410,
        Vec::new(),
    );
    assert_eq!(g.index, 3);
    assert_eq!(g.name, "Accelerator");
    assert_eq!(g.temperature, 61);
    assert_eq!(g.utilization, 87);
    assert_eq!(g.memory_used, 4096);
    assert_eq!(g.memory_total, 8192);
    assert_eq!(g.power_usage, 153);
    assert_eq!(g.power_limit, 250);
    assert_eq!(g.clock_freq, 1410);
    assert!(g.processes.is_empty());
}

#[test]
fn device_record_keeps_resolved_processes() {
    let p = GpuProcessInfo {
        pid: 9,
        used_gpu_memory: 1024,
        username: String::from("user"),
        command: String::from("cmd"),
        cpu_usage_tenths: 5,
        memory_usage: 2048,
    };
    let g = build_gpu_info(
        0,
        String::from("dev"),
        40,
        10,
        0,
        0,
        999,
        1000,
        100,
        vec![p],
    );
    // 999 mW truncates to 0 W; 1000 mW is exactly 1 W.
    assert_eq!(g.power_usage, 0);
    assert_eq!(g.power_limit, 1);
    assert_eq!(g.processes.len(), 1);
    assert_eq!(g.processes[0].pid, 9);
}
