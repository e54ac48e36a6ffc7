//! Resolution of a process id through the system's process table.
//!
//! The table is machine state: what it reports for a pid can differ between
//! any two reads. The trusted wrappers here therefore promise nothing about
//! the values they hand back; everything computed from those values is done
//! by verified code (`crate::process`).

use crate::process::GpuProcessInfo;
use crate::process::build_process_info;
use vstd::prelude::*;

verus! {

/// A handle on one entry of the process table.
#[verifier::external_type_specification]
#[verifier::external_body]
pub struct ExProcess(procfs::process::Process);

/// Relies on procfs::process::Process::new: opens the table entry for the
/// given pid, or nothing if the process is gone or unreadable. Ids above
/// `i32::MAX` name no process and yield nothing.
#[verifier::external_body]
fn open_process(pid: u32) -> (r: Option<procfs::process::Process>) {
    i32::try_from(pid).ok().and_then(|p| procfs::process::Process::new(p).ok())
}

/// Relies on procfs::process::Process::uid: the id of the owning user.
#[verifier::external_body]
fn process_uid(p: &procfs::process::Process) -> (r: Option<u32>) {
    p.uid().ok()
}

/// Relies on procfs::process::Process::cmdline: the command-line arguments.
#[verifier::external_body]
fn process_cmdline(p: &procfs::process::Process) -> (r: Option<Vec<String>>) {
    p.cmdline().ok()
}

/// Relies on procfs::process::Process::stat: user-mode ticks, kernel-mode
/// ticks and resident pages of the process, in that order.
#[verifier::external_body]
fn process_stat_counters(p: &procfs::process::Process) -> (r: Option<(u64, u64, u64)>) {
    p.stat().ok().map(|stat| (stat.utime, stat.stime, stat.rss))
}

/// Relies on nix::unistd::User::from_uid: the name of the user with that id.
#[verifier::external_body]
fn username_from_uid(uid: u32) -> (r: Option<String>) {
    match nix::unistd::User::from_uid(nix::unistd::Uid::from_raw(uid)) {
        Ok(Some(user)) => Some(user.name),
        _ => None,
    }
}

/// Relies on procfs::ticks_per_second: the system's clock ticks per second,
/// read from `sysconf(_SC_CLK_TCK)`.
#[verifier::external_body]
pub fn get_clock_ticks_per_second() -> (r: u64) {
    procfs::ticks_per_second()
}

/// Relies on procfs::Uptime::current and its uptime_duration: seconds since
/// boot, in whole seconds; zero when the uptime cannot be read.
#[verifier::external_body]
pub fn get_system_uptime() -> (r: u64) {
    match <procfs::Uptime as procfs::Current>::current() {
        Ok(u) => u.uptime_duration().as_secs(),
        Err(_) => 0,
    }
}

/// Relies on String::push_str: appends exactly the given characters.
#[verifier::external_body]
fn string_push_str(s: &mut String, t: &str)
    ensures
        final(s)@ == old(s)@ + t@,
{
    s.push_str(t)
}

/// The words joined by single spaces, in order.
pub open spec fn spec_joined(parts: Seq<Seq<char>>) -> Seq<char>
    decreases parts.len(),
{
    if parts.len() == 0 {
        Seq::empty()
    } else if parts.len() == 1 {
        parts[0]
    } else {
        spec_joined(parts.drop_last()) + seq![' '] + parts.last()
    }
}

/// Join command-line words with single spaces.
fn join_words(parts: &Vec<String>) -> (r: String)
    ensures
        r@ == spec_joined(parts@.map_values(|s: String| s@)),
{
    let ghost words = parts@.map_values(|s: String| s@);
    let mut r = String::new();
    let mut i: usize = 0;
    while i < parts.len()
        invariant
            0 <= i <= parts@.len(),
            words == parts@.map_values(|s: String| s@),
            words.len() == parts@.len(),
            r@ == spec_joined(words.subrange(0, i as int)),
        decreases parts@.len() - i,
    {
        if i > 0 {
            string_push_str(&mut r, " ");
            proof {
                reveal_strlit(" ");
            }
        }
        string_push_str(&mut r, parts[i].as_str());
        proof {
            let upto = words.subrange(0, i as int + 1);
            assert(upto.drop_last() =~= words.subrange(0, i as int));
            assert(upto.last() == words[i as int]);
            assert(r@ =~= spec_joined(upto));
        }
        i += 1;
    }
    proof {
        assert(words.subrange(0, words.len() as int) =~= words);
    }
    r
}

/// Resolve one reported process id against the process table: owning user,
/// command line, lifetime-average CPU share and resident memory. Yields
/// nothing when the process has vanished or its owner cannot be resolved —
/// such a sample is silently dropped from the tick rather than failing it.
/// The attributed GPU memory is passed through unchanged.
pub fn get_process_info(pid: u32, used_gpu_memory: u64) -> (r: Option<GpuProcessInfo>)
    ensures
        r matches Some(info) ==> info.pid == pid && info.used_gpu_memory == used_gpu_memory,
{
    let process = match open_process(pid) {
        Some(p) => p,
        None => {
            return None;
        },
    };
    let uid = match process_uid(&process) {
        Some(u) => u,
        None => {
            return None;
        },
    };
    let username = match username_from_uid(uid) {
        Some(name) => name,
        None => {
            return None;
        },
    };
    let command = match process_cmdline(&process) {
        Some(parts) => join_words(&parts),
        None => String::new(),
    };
    let (utime, stime, rss) = match process_stat_counters(&process) {
        Some(c) => c,
        None => (0, 0, 0),
    };
    Some(
        build_process_info(
            pid,
            used_gpu_memory,
            username,
            command,
            utime,
            stime,
            get_clock_ticks_per_second(),
            get_system_uptime(),
            rss,
        ),
    )
}

} // verus!
