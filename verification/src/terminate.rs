//! Mapping a selection index into the aggregated process sequence to a
//! termination request, and classifying the signal facility's answer.

use crate::aggregate::ProcessEntry;
use crate::app_state::AppState;
use vstd::prelude::*;

verus! {

/// What one attempt to deliver a termination signal came to.
#[derive(Debug)]
pub enum SignalOutcome {
    /// The signal was delivered.
    Delivered,
    /// The caller lacks the privilege to signal that process.
    PermissionDenied,
    /// Delivery failed for another reason, described by the system.
    Failed(String),
}

/// Why a termination request failed.
#[derive(Debug)]
pub enum TerminationError {
    /// The selection index points outside the aggregated sequence.
    NotFound,
    /// The signal was refused for lack of privilege; carries the pid and
    /// command of the selected entry.
    PermissionDenied { pid: u32, command: String },
    /// Delivery failed for another reason; carries the pid and command of
    /// the selected entry and the system's description.
    Other { pid: u32, command: String, detail: String },
}

/// Relies on nix::sys::signal::kill: sends SIGTERM to the process with the
/// given id, without waiting for it to exit, and reports EPERM as refused
/// permission. Ids above `i32::MAX` name no process and fail delivery.
#[verifier::external_body]
fn send_terminate(pid: u32) -> (r: SignalOutcome) {
    let raw = match i32::try_from(pid) {
        Ok(p) => p,
        Err(e) => {
            return SignalOutcome::Failed(format!("{}", e));
        },
    };
    match nix::sys::signal::kill(nix::unistd::Pid::from_raw(raw), nix::sys::signal::Signal::SIGTERM)
    {
        Ok(()) => SignalOutcome::Delivered,
        Err(nix::errno::Errno::EPERM) => SignalOutcome::PermissionDenied,
        Err(e) => SignalOutcome::Failed(format!("{}", e)),
    }
}

/// Turn the signal facility's answer for the selected entry into the
/// caller's result: refused permission and any other failure carry the
/// entry's pid and command.
pub fn classify_signal_outcome(outcome: SignalOutcome, pid: u32, command: String) -> (r: Result<
    (),
    TerminationError,
>)
    ensures
        r == match outcome {
            SignalOutcome::Delivered => Ok::<(), TerminationError>(()),
            SignalOutcome::PermissionDenied => Err::<(), TerminationError>(
                TerminationError::PermissionDenied { pid, command },
            ),
            SignalOutcome::Failed(detail) => Err::<(), TerminationError>(
                TerminationError::Other { pid, command, detail },
            ),
        },
{
    match outcome {
        SignalOutcome::Delivered => Ok(()),
        SignalOutcome::PermissionDenied => Err(TerminationError::PermissionDenied { pid, command }),
        SignalOutcome::Failed(detail) => Err(TerminationError::Other { pid, command, detail }),
    }
}

/// Validate a selection index against the aggregated sequence and, exactly
/// when it is in range, ask the signal facility to terminate the selected
/// entry's process. An out-of-range index is `NotFound` and sends nothing.
/// Whatever the facility answers, a failure names the selected entry: every
/// error but `NotFound` carries its pid and command.
pub fn terminate_at(entries: &Vec<ProcessEntry>, index: usize) -> (r: Result<(), TerminationError>)
    ensures
        index >= entries@.len() ==> r == Err::<(), TerminationError>(TerminationError::NotFound),
        index < entries@.len() ==> match r {
            Ok(()) => true,
            Err(e) => match e {
                TerminationError::NotFound => false,
                TerminationError::PermissionDenied { pid, command } => pid
                    == entries@[index as int].process.pid && command
                    == entries@[index as int].process.command,
                TerminationError::Other { pid, command, detail: _ } => pid
                    == entries@[index as int].process.pid && command
                    == entries@[index as int].process.command,
            },
        },
{
    if index < entries.len() {
        let pid = entries[index].process.pid;
        let command = entries[index].process.command.clone();
        let outcome = send_terminate(pid);
        classify_signal_outcome(outcome, pid, command)
    } else {
        Err(TerminationError::NotFound)
    }
}

/// Terminate the process the selection points at in the most recently
/// produced sorted sequence. A selection beyond that sequence is `NotFound`
/// and sends nothing; any failure from the signal facility names the
/// selected entry's pid and command.
pub fn kill_selected_process(app_state: &AppState) -> (r: Result<(), TerminationError>)
    requires
        app_state.wf(),
    ensures
        app_state.selected_process >= app_state.processes_sorted@.len() ==> r == Err::<
            (),
            TerminationError,
        >(TerminationError::NotFound),
        app_state.selected_process < app_state.processes_sorted@.len() ==> match r {
            Ok(()) => true,
            Err(e) => match e {
                TerminationError::NotFound => false,
                TerminationError::PermissionDenied { pid, command } => pid
                    == app_state.processes_sorted@[app_state.selected_process as int].process.pid
                    && command == app_state.processes_sorted@[
                    app_state.selected_process as int
                ].process.command,
                TerminationError::Other { pid, command, detail: _ } => pid
                    == app_state.processes_sorted@[app_state.selected_process as int].process.pid
                    && command == app_state.processes_sorted@[
                    app_state.selected_process as int
                ].process.command,
            },
        },
{
    terminate_at(&app_state.processes_sorted, app_state.selected_process)
}

} // verus!
