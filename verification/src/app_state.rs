//! The dashboard's state and the tick/selection state machine.
//!
//! The state is mutated only between ticks and by explicit user actions.
//! A tick either installs one fully formed snapshot — appending exactly one
//! sample per device to both histories, recomputing the sorted process
//! sequence, clamping the selection — or, on any device-level failure,
//! leaves the state entirely untouched.

use crate::aggregate::ProcessEntry;
use crate::aggregate::aggregate_processes;
use crate::aggregate::all_entries;
use crate::aggregate::sort_desc;
use crate::gpu::GpuInfo;
use crate::history::HistorySeries;
use crate::history::series_roll;
use crate::telemetry::SampleError;
use crate::telemetry::collect_gpu_info;
use crate::terminate::TerminationError;
use vstd::prelude::*;

verus! {

/// The latest snapshot, the bounded histories, the selection, and the last
/// termination error.
pub struct AppState {
    /// Position of the selected process in `processes_sorted`.
    pub selected_process: usize,
    /// Which device's graphs the tabbed view shows (presentation concern).
    pub selected_gpu_tab: usize,
    /// The snapshot of the most recent successful tick.
    pub gpu_infos: Vec<GpuInfo>,
    /// The aggregated, sorted process sequence of that snapshot.
    pub processes_sorted: Vec<ProcessEntry>,
    /// The most recent termination failure, kept until overwritten.
    pub error_message: Option<TerminationError>,
    /// One power series, in watts, per device index ever observed.
    pub power_history: Vec<HistorySeries>,
    /// One utilization series, in percent, per device index ever observed.
    pub utilization_history: Vec<HistorySeries>,
    /// Render the graphs in tabs (presentation flag).
    pub use_tabbed_graphs: bool,
    /// Render the graphs as bar charts (presentation flag).
    pub use_bar_charts: bool,
}

/// The series at index `i`, or an empty one where no device `i` had been
/// observed yet.
pub open spec fn prior_series(h: Seq<HistorySeries>, i: int) -> Seq<u64> {
    if 0 <= i < h.len() {
        h[i]@
    } else {
        Seq::empty()
    }
}

/// Where the selection lands when the sequence it points into has `total`
/// entries: unchanged while in range, the last entry when it fell off the
/// end, zero when the sequence is empty.
pub open spec fn spec_clamped(sel: usize, total: nat) -> usize {
    if total == 0 {
        0
    } else if sel < total {
        sel
    } else {
        (total - 1) as usize
    }
}

/// How one successful tick with snapshot `gpus` transforms the state:
/// both histories grow to cover every device index and receive exactly one
/// append per device, series of devices that disappeared stay untouched,
/// the device list is replaced wholesale, the sorted process sequence is
/// recomputed from scratch, the selection is clamped to it, and everything
/// else is kept.
pub open spec fn snapshot_applied(pre: AppState, post: AppState, gpus: Seq<GpuInfo>) -> bool {
    let devices = gpus.len() as int;
    let series_count = if pre.power_history@.len() >= devices {
        pre.power_history@.len() as int
    } else {
        devices
    };
    &&& post.gpu_infos@ == gpus
    &&& post.processes_sorted@ == sort_desc(all_entries(gpus))
    &&& post.power_history@.len() == series_count
    &&& post.utilization_history@.len() == series_count
    &&& forall|i: int|
        0 <= i < devices ==> (#[trigger] post.power_history@[i])@ == series_roll(
            prior_series(pre.power_history@, i),
            gpus[i].power_usage as u64,
        )
    &&& forall|i: int|
        0 <= i < devices ==> (#[trigger] post.utilization_history@[i])@ == series_roll(
            prior_series(pre.utilization_history@, i),
            gpus[i].utilization as u64,
        )
    &&& forall|i: int|
        devices <= i < series_count ==> (#[trigger] post.power_history@[i])@ == prior_series(
            pre.power_history@,
            i,
        )
    &&& forall|i: int|
        devices <= i < series_count ==> (#[trigger] post.utilization_history@[i])@
            == prior_series(pre.utilization_history@, i)
    &&& post.selected_process == spec_clamped(pre.selected_process, post.processes_sorted@.len())
    &&& post.selected_gpu_tab == pre.selected_gpu_tab
    &&& post.error_message == pre.error_message
    &&& post.use_tabbed_graphs == pre.use_tabbed_graphs
    &&& post.use_bar_charts == pre.use_bar_charts
}

impl AppState {
    /// What every tick and action re-establishes: the sorted sequence is the
    /// aggregation of the current snapshot, the histories cover every device
    /// of the snapshot and respect their capacity, and the selection is
    /// clamped to the sorted sequence (zero when it is empty).
    pub open spec fn wf(&self) -> bool {
        &&& self.processes_sorted@ == sort_desc(all_entries(self.gpu_infos@))
        &&& self.power_history@.len() == self.utilization_history@.len()
        &&& self.power_history@.len() >= self.gpu_infos@.len()
        &&& forall|i: int|
            0 <= i < self.power_history@.len() ==> (#[trigger] self.power_history@[i]).wf()
        &&& forall|i: int|
            0 <= i < self.utilization_history@.len() ==> (
            #[trigger] self.utilization_history@[i]).wf()
        &&& (self.selected_process < self.processes_sorted@.len() || (self.processes_sorted@.len()
            == 0 && self.selected_process == 0))
    }

    /// The empty state the control loop starts from.
    pub fn new(use_tabbed_graphs: bool, use_bar_charts: bool) -> (r: AppState)
        ensures
            r.wf(),
            r.selected_process == 0,
            r.selected_gpu_tab == 0,
            r.gpu_infos@.len() == 0,
            r.processes_sorted@.len() == 0,
            r.error_message is None,
            r.power_history@.len() == 0,
            r.utilization_history@.len() == 0,
            r.use_tabbed_graphs == use_tabbed_graphs,
            r.use_bar_charts == use_bar_charts,
    {
        let r = AppState {
            selected_process: 0,
            selected_gpu_tab: 0,
            gpu_infos: Vec::new(),
            processes_sorted: Vec::new(),
            error_message: None,
            power_history: Vec::new(),
            utilization_history: Vec::new(),
            use_tabbed_graphs,
            use_bar_charts,
        };
        proof {
            assert(all_entries(r.gpu_infos@) =~= Seq::<ProcessEntry>::empty());
            assert(r.processes_sorted@ =~= sort_desc(all_entries(r.gpu_infos@)));
        }
        r
    }

    /// Move the selection one row up, stopping at the top: it never goes
    /// below zero.
    pub fn select_up(&mut self)
        requires
            old(self).wf(),
        ensures
            final(self).wf(),
            final(self).selected_process == if old(self).selected_process > 0 {
                (old(self).selected_process - 1) as usize
            } else {
                0
            },
            (*final(self) == AppState {
                selected_process: final(self).selected_process,
                ..*old(self)
            }),
    {
        if self.selected_process > 0 {
            self.selected_process = self.selected_process - 1;
        }
    }

    /// Move the selection one row down, stopping at the last entry of the
    /// sorted sequence: it never exceeds the number of entries minus one.
    pub fn select_down(&mut self)
        requires
            old(self).wf(),
        ensures
            final(self).wf(),
            final(self).selected_process == if old(self).selected_process + 1
                < old(self).processes_sorted@.len() {
                (old(self).selected_process + 1) as usize
            } else {
                old(self).selected_process
            },
            (*final(self) == AppState {
                selected_process: final(self).selected_process,
                ..*old(self)
            }),
    {
        let total = self.processes_sorted.len();
        if self.selected_process < total && self.selected_process + 1 < total {
            self.selected_process = self.selected_process + 1;
        }
    }

    /// Surface a termination failure; it stays until overwritten.
    pub fn record_termination_error(&mut self, e: TerminationError)
        requires
            old(self).wf(),
        ensures
            final(self).wf(),
            (*final(self) == AppState { error_message: Some(e), ..*old(self) }),
    {
        self.error_message = Some(e);
    }

    /// Install the snapshot of one fully successful device pass.
    #[verifier::loop_isolation(false)]
    pub fn apply_snapshot(&mut self, gpu_infos: Vec<GpuInfo>)
        requires
            old(self).wf(),
        ensures
            final(self).wf(),
            snapshot_applied(*old(self), *final(self), gpu_infos@),
    {
        let devices = gpu_infos.len();
        // Grow both histories to cover every device index of this snapshot.
        while self.power_history.len() < devices
            invariant
                self.utilization_history@.len() == self.power_history@.len(),
                self.power_history@.len() >= old(self).power_history@.len(),
                self.power_history@.len() <= if old(self).power_history@.len() >= devices {
                    old(self).power_history@.len() as int
                } else {
                    devices as int
                },
                forall|k: int|
                    0 <= k < old(self).power_history@.len() ==> (#[trigger] self.power_history@[k])
                        == old(self).power_history@[k],
                forall|k: int|
                    0 <= k < old(self).utilization_history@.len() ==> (
                    #[trigger] self.utilization_history@[k]) == old(self).utilization_history@[k],
                forall|k: int|
                    old(self).power_history@.len() <= k < self.power_history@.len() ==> (
                    #[trigger] self.power_history@[k])@ == Seq::<u64>::empty(),
                forall|k: int|
                    old(self).utilization_history@.len() <= k < self.utilization_history@.len()
                        ==> (#[trigger] self.utilization_history@[k])@ == Seq::<u64>::empty(),
                self.selected_process == old(self).selected_process,
                self.selected_gpu_tab == old(self).selected_gpu_tab,
                self.gpu_infos == old(self).gpu_infos,
                self.processes_sorted == old(self).processes_sorted,
                self.error_message == old(self).error_message,
                self.use_tabbed_graphs == old(self).use_tabbed_graphs,
                self.use_bar_charts == old(self).use_bar_charts,
            decreases devices - self.power_history@.len(),
        {
            self.power_history.push(HistorySeries::new());
            self.utilization_history.push(HistorySeries::new());
        }
        let ghost grown_power = self.power_history@;
        let ghost grown_util = self.utilization_history@;
        let ghost series_count = self.power_history@.len() as int;
        proof {
            assert(forall|k: int|
                0 <= k < series_count ==> (#[trigger] grown_power[k])@ == prior_series(
                    old(self).power_history@,
                    k,
                ));
            assert(forall|k: int|
                0 <= k < series_count ==> (#[trigger] grown_util[k])@ == prior_series(
                    old(self).utilization_history@,
                    k,
                ));
            assert(forall|k: int| 0 <= k < series_count ==> (#[trigger] grown_power[k]).wf());
            assert(forall|k: int| 0 <= k < series_count ==> (#[trigger] grown_util[k]).wf());
        }
        // Append exactly one sample per device to each metric's series.
        let mut i: usize = 0;
        while i < devices
            invariant
                0 <= i <= devices,
                self.power_history@.len() == series_count,
                self.utilization_history@.len() == series_count,
                forall|k: int|
                    0 <= k < i ==> (#[trigger] self.power_history@[k])@ == series_roll(
                        prior_series(old(self).power_history@, k),
                        gpu_infos@[k].power_usage as u64,
                    ),
                forall|k: int|
                    0 <= k < i ==> (#[trigger] self.utilization_history@[k])@ == series_roll(
                        prior_series(old(self).utilization_history@, k),
                        gpu_infos@[k].utilization as u64,
                    ),
                forall|k: int| 0 <= k < i ==> (#[trigger] self.power_history@[k]).wf(),
                forall|k: int| 0 <= k < i ==> (#[trigger] self.utilization_history@[k]).wf(),
                forall|k: int|
                    i <= k < series_count ==> (#[trigger] self.power_history@[k])
                        == grown_power[k],
                forall|k: int|
                    i <= k < series_count ==> (#[trigger] self.utilization_history@[k])
                        == grown_util[k],
                self.selected_process == old(self).selected_process,
                self.selected_gpu_tab == old(self).selected_gpu_tab,
                self.gpu_infos == old(self).gpu_infos,
                self.processes_sorted == old(self).processes_sorted,
                self.error_message == old(self).error_message,
                self.use_tabbed_graphs == old(self).use_tabbed_graphs,
                self.use_bar_charts == old(self).use_bar_charts,
            decreases devices - i,
        {
            let ghost power_before = self.power_history@;
            let mut series = self.power_history.remove(i);
            series.append(gpu_infos[i].power_usage as u64);
            self.power_history.insert(i, series);
            proof {
                assert(self.power_history@ =~= power_before.update(i as int, series));
            }
            let ghost util_before = self.utilization_history@;
            let mut series = self.utilization_history.remove(i);
            series.append(gpu_infos[i].utilization as u64);
            self.utilization_history.insert(i, series);
            proof {
                assert(self.utilization_history@ =~= util_before.update(i as int, series));
            }
            i += 1;
        }
        // Replace the snapshot wholesale and recompute the sorted sequence.
        self.gpu_infos = gpu_infos;
        self.processes_sorted = aggregate_processes(&self.gpu_infos);
        // Clamp the selection to the new sequence.
        let total = self.processes_sorted.len();
        if total == 0 {
            self.selected_process = 0;
        } else if self.selected_process >= total {
            self.selected_process = total - 1;
        }
    }

    /// Apply one tick's outcome: a successful pass installs the snapshot as
    /// `apply_snapshot` does; a failed pass leaves the state entirely
    /// untouched and hands the failure back.
    pub fn apply_tick(&mut self, outcome: Result<Vec<GpuInfo>, SampleError>) -> (r: Result<
        (),
        SampleError,
    >)
        requires
            old(self).wf(),
        ensures
            final(self).wf(),
            outcome matches Err(e) ==> *final(self) == *old(self) && r == Err::<(), SampleError>(
                e,
            ),
            outcome matches Ok(gpus) ==> r == Ok::<(), SampleError>(()) && snapshot_applied(
                *old(self),
                *final(self),
                gpus@,
            ),
    {
        match outcome {
            Ok(gpus) => {
                self.apply_snapshot(gpus);
                Ok(())
            },
            Err(e) => Err(e),
        }
    }

    /// One full tick: sample every device and install the snapshot. On a
    /// failed sample the state is left exactly as it was — a partial pass
    /// is never merged.
    pub fn tick(&mut self, nvml: &nvml_wrapper::Nvml) -> (r: Result<(), SampleError>)
        requires
            old(self).wf(),
        ensures
            final(self).wf(),
            r matches Err(_) ==> *final(self) == *old(self),
            r matches Ok(_) ==> snapshot_applied(
                *old(self),
                *final(self),
                final(self).gpu_infos@,
            ) && forall|i: int|
                0 <= i < final(self).gpu_infos@.len()
                    ==> (#[trigger] final(self).gpu_infos@[i]).index == i,
    {
        let outcome = collect_gpu_info(nvml);
        self.apply_tick(outcome)
    }
}

} // verus!
