use nviwatch::app_state::AppState;
use nviwatch::gpu::GpuInfo;
use nviwatch::process::GpuProcessInfo;
use nviwatch::telemetry::SampleError;

fn sample(pid: u32, used_gpu_memory: u64) -> GpuProcessInfo {
    GpuProcessInfo {
        pid,
        used_gpu_memory,
        username: String::from("user"),
        command: String::from("cmd"),
        cpu_usage_tenths: 0,
        memory_usage: 0,
    }
}

fn device(index: usize, power: u32, util: u32, processes: Vec<GpuProcessInfo>) -> GpuInfo {
    GpuInfo {
        index,
        name: format!("dev{}", index),
        temperature: 40,
        utilization: util,
        memory_used: 0,
        memory_total: 0,
        power_usage: power,
        power_limit: 250,
        clock_freq: 1000,
        processes,
    }
}

#[test]
fn new_state_is_empty() {
    let state = AppState::new(true, false);
    assert_eq!(state.selected_process, 0);
    assert_eq!(state.selected_gpu_tab, 0);
    assert!(state.gpu_infos.is_empty());
    assert!(state.processes_sorted.is_empty());
    assert!(state.error_message.is_none());
    assert!(state.power_history.is_empty());
    assert!(state.utilization_history.is_empty());
    assert!(state.use_tabbed_graphs);
    assert!(!state.use_bar_charts);
}

#[test]
fn selection_moves_down_and_stops_at_last() {
    let mut state = AppState::new(false, false);
    state.apply_snapshot(vec![device(
        0,
        100,
        50,
        vec![sample(1, 30), sample(2, 20), sample(3, 10)],
    )]);
    assert_eq!(state.selected_process, 0);
    state.select_down();
    assert_eq!(state.selected_process, 1);
    state.select_down();
    assert_eq!(state.selected_process, 2);
    state.select_down();
    assert_eq!(state.selected_process, 2);
    state.select_down();
    assert_eq!(state.selected_process, 2);
}

#[test]
fn selection_moves_up_and_stops_at_zero() {
    let mut state = AppState::new(false, false);
    state.apply_snapshot(vec![device(0, 100, 50, vec![sample(1, 30), sample(2, 20)])]);
    state.select_down();
    assert_eq!(state.selected_process, 1);
    state.select_up();
    assert_eq!(state.selected_process, 0);
    state.select_up();
    assert_eq!(state.selected_process, 0);
}

#[test]
fn selection_on_empty_list_stays_at_zero() {
    let mut state = AppState::new(false, false);
    state.select_down();
    assert_eq!(state.selected_process, 0);
    state.select_up();
    assert_eq!(state.selected_process, 0);
}

#[test]
fn selection_clamped_when_list_shrinks() {
    let mut state = AppState::new(false, false);
    state.apply_snapshot(vec![device(
        0,
        100,
        50,
        vec![sample(1, 30), sample(2, 20), sample(3, 10)],
    )]);
    state.select_down();
    state.select_down();
    assert_eq!(state.selected_process, 2);
    state.apply_snapshot(vec![device(0, 100, 50, vec![sample(1, 30)])]);
    assert_eq!(state.selected_process, 0);
    state.apply_snapshot(vec![device(0, 100, 50, Vec::new())]);
    assert_eq!(state.selected_process, 0);
}

#[test]
fn snapshot_appends_one_sample_per_device_and_metric() {
    let mut state = AppState::new(false, false);
    state.apply_snapshot(vec![
        device(0, 111, 41, Vec::new()),
        device(1, 222, 42, Vec::new()),
    ]);
    assert_eq!(state.power_history.len(), 2);
    assert_eq!(state.utilization_history.len(), 2);
    assert_eq!(state.power_history[0].values(), vec![111u64]);
    assert_eq!(state.power_history[1].values(), vec![222u64]);
    assert_eq!(state.utilization_history[0].values(), vec![41u64]);
    assert_eq!(state.utilization_history[1].values(), vec![42u64]);
    state.apply_snapshot(vec![
        device(0, 113, 43, Vec::new()),
        device(1, 224, 44, Vec::new()),
    ]);
    assert_eq!(state.power_history[0].values(), vec![111u64, 113]);
    assert_eq!(state.power_history[1].values(), vec![222u64, 224]);
    assert_eq!(state.utilization_history[0].values(), vec![41u64, 43]);
    assert_eq!(state.utilization_history[1].values(), vec![42u64, 44]);
}

#[test]
fn stale_series_untouched_when_device_disappears() {
    let mut state = AppState::new(false, false);
    state.apply_snapshot(vec![
        device(0, 100, 10, Vec::new()),
        device(1, 200, 20, Vec::new()),
    ]);
    state.apply_snapshot(vec![device(0, 101, 11, Vec::new())]);
    assert_eq!(state.power_history.len(), 2);
    assert_eq!(state.power_history[0].values(), vec![100u64, 101]);
    assert_eq!(state.power_history[1].values(), vec![200u64]);
    assert_eq!(state.utilization_history[0].values(), vec![10u64, 11]);
    assert_eq!(state.utilization_history[1].values(), vec![20u64]);
}

#[test]
fn snapshot_recomputes_sorted_sequence() {
    let mut state = AppState::new(false, false);
    state.apply_snapshot(vec![
        device(0, 100, 10, vec![sample(10, 500), sample(11, 100)]),
        device(1, 200, 20, vec![sample(12, 800)]),
    ]);
    let pids: Vec<u32> = state
        .processes_sorted
        .iter()
        .map(|e| e.process.pid)
        .collect();
    assert_eq!(pids, vec![12, 10, 11]);
    assert_eq!(state.gpu_infos.len(), 2);
}

#[test]
fn failed_tick_leaves_state_identical() {
    let mut state = AppState::new(false, true);
    state.apply_snapshot(vec![
        device(0, 100, 10, vec![sample(10, 500), sample(11, 100)]),
        device(1, 200, 20, vec![sample(12, 800)]),
    ]);
    state.select_down();

    let selected_before = state.selected_process;
    let tab_before = state.selected_gpu_tab;
    let gpu_count_before = state.gpu_infos.len();
    let names_before: Vec<String> = state.gpu_infos.iter().map(|g| g.name.clone()).collect();
    let pids_before: Vec<u32> = state
        .processes_sorted
        .iter()
        .map(|e| e.process.pid)
        .collect();
    let power_before: Vec<Vec<u64>> = state
        .power_history
        .iter()
        .map(|s| s.values())
        .collect();
    let util_before: Vec<Vec<u64>> = state
        .utilization_history
        .iter()
        .map(|s| s.values())
        .collect();

    let outcome = state.apply_tick(Err(SampleError {
        message: String::from("device 1 of 2 fell off the bus"),
    }));
    assert!(outcome.is_err());
    assert_eq!(outcome.unwrap_err().message, "device 1 of 2 fell off the bus");

    assert_eq!(state.selected_process, selected_before);
    assert_eq!(state.selected_gpu_tab, tab_before);
    assert_eq!(state.gpu_infos.len(), gpu_count_before);
    let names_after: Vec<String> = state.gpu_infos.iter().map(|g| g.name.clone()).collect();
    assert_eq!(names_after, names_before);
    let pids_after: Vec<u32> = state
        .processes_sorted
        .iter()
        .map(|e| e.process.pid)
        .collect();
    assert_eq!(pids_after, pids_before);
    let power_after: Vec<Vec<u64>> = state
        .power_history
        .iter()
        .map(|s| s.values())
        .collect();
    assert_eq!(power_after, power_before);
    let util_after: Vec<Vec<u64>> = state
        .utilization_history
        .iter()
        .map(|s| s.values())
        .collect();
    assert_eq!(util_after, util_before);
    assert!(state.error_message.is_none());
    assert!(!state.use_tabbed_graphs);
    assert!(state.use_bar_charts);
}

#[test]
fn successful_apply_tick_installs_snapshot() {
    let mut state = AppState::new(false, false);
    let outcome = state.apply_tick(Ok(vec![device(0, 150, 60, vec![sample(5, 42)])]));
    assert!(outcome.is_ok());
    assert_eq!(state.gpu_infos.len(), 1);
    assert_eq!(state.processes_sorted.len(), 1);
    assert_eq!(state.processes_sorted[0].process.pid, 5);
    assert_eq!(state.power_history[0].values(), vec![150u64]);
    assert_eq!(state.utilization_history[0].values(), vec![60u64]);
}

#[test]
fn history_window_over_many_ticks() {
    let mut state = AppState::new(false, false);
    for t in 0..75u32 {
        state.apply_snapshot(vec![device(0, t, t % 101, Vec::new())]);
    }
    assert_eq!(state.power_history[0].len(), 60);
    let expected: Vec<u64> = (15..75).map(|t| t as u64).collect();
    assert_eq!(state.power_history[0].values(), expected);
}
