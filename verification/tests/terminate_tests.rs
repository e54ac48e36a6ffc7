use nviwatch::aggregate::ProcessEntry;
use nviwatch::app_state::AppState;
use nviwatch::gpu::GpuInfo;
use nviwatch::process::GpuProcessInfo;
use nviwatch::terminate::SignalOutcome;
use nviwatch::terminate::TerminationError;
use nviwatch::terminate::classify_signal_outcome;
use nviwatch::terminate::kill_selected_process;
use nviwatch::terminate::terminate_at;

fn sample(pid: u32, used_gpu_memory: u64) -> GpuProcessInfo {
    GpuProcessInfo {
        pid,
        used_gpu_memory,
        username: String::from("user"),
        command: String::from("training-job"),
        cpu_usage_tenths: 0,
        memory_usage: 0,
    }
}

fn device(index: usize, processes: Vec<GpuProcessInfo>) -> GpuInfo {
    GpuInfo {
        index,
        name: format!("dev{}", index),
        temperature: 40,
        utilization: 10,
        memory_used: 0,
        memory_total: 0,
        power_usage: 100,
        power_limit: 250,
        clock_freq: 1000,
        processes,
    }
}

#[test]
fn empty_state_terminate_is_not_found() {
    let state = AppState::new(false, false);
    let r = kill_selected_process(&state);
    assert!(matches!(r, Err(TerminationError::NotFound)));
}

#[test]
fn out_of_range_index_is_not_found() {
    let entries = vec![ProcessEntry {
        gpu_index: 0,
        process: sample(424242, 100),
    }];
    let r = terminate_at(&entries, 1);
    assert!(matches!(r, Err(TerminationError::NotFound)));
    let r = terminate_at(&entries, 7);
    assert!(matches!(r, Err(TerminationError::NotFound)));
}

#[test]
fn permission_denied_names_pid_and_command() {
    let r = classify_signal_outcome(
        SignalOutcome::PermissionDenied,
        4242,
        String::from("training-job"),
    );
    match r {
        Err(TerminationError::PermissionDenied { pid, command }) => {
            assert_eq!(pid, 4242);
            assert_eq!(command, "training-job");
        }
        other => panic!("expected a permission failure, got {:?}", other),
    }
}

#[test]
fn other_failure_names_pid_command_and_detail() {
    let r = classify_signal_outcome(
        SignalOutcome::Failed(String::from("no such process")),
        17,
        String::from("gone-job"),
    );
    match r {
        Err(TerminationError::Other {
            pid,
            command,
            detail,
        }) => {
            assert_eq!(pid, 17);
            assert_eq!(command, "gone-job");
            assert_eq!(detail, "no such process");
        }
        other => panic!("expected a delivery failure, got {:?}", other),
    }
}

#[test]
fn delivered_signal_is_success() {
    let r = classify_signal_outcome(SignalOutcome::Delivered, 1, String::from("cmd"));
    assert!(r.is_ok());
}

#[test]
fn terminating_index_zero_targets_largest_share() {
    // Two devices; the selection at index zero must target pid 12, the
    // process with the largest attributed memory, on device 1.
    let mut state = AppState::new(false, false);
    state.apply_snapshot(vec![
        device(0, vec![sample(10, 500), sample(11, 100)]),
        device(1, vec![sample(12, 800)]),
    ]);
    assert_eq!(state.selected_process, 0);
    assert_eq!(state.processes_sorted[0].process.pid, 12);
    assert_eq!(state.processes_sorted[0].gpu_index, 1);
}
