//! The operating system's process table, as `sysinfo::System` captures it.
//!
//! Nothing in this file is proved: each function hands a call on to `sysinfo`,
//! and its contract says what the library takes that call to do.

use crate::records::ProcessInfo;
use vstd::prelude::*;

verus! {

/// Makes `sysinfo::System` known as a type; nothing inside it is looked at.
#[verifier::external_type_specification]
#[verifier::external_body]
pub struct ExSystem(sysinfo::System);

/// The processes that `system` holds since it was last refreshed. A process
/// id is a key if `sysinfo::System::process` finds a process for it, the id
/// being handed over as `Pid::from(pid as usize)`; its entry is that
/// process's name (`Process::name`), the path of its executable
/// (`Process::exe`, as text) and the tokens of its command line
/// (`Process::cmd`).
pub uninterp spec fn process_table(system: sysinfo::System) -> Map<
    u32,
    (Seq<char>, Option<Seq<char>>, Seq<Seq<char>>),
>;

/// Calls `sysinfo::System::new_with_specifics` with
/// `sysinfo::RefreshKind::everything()`. Nothing is claimed of what the new
/// value holds.
#[verifier::external_body]
pub(crate) fn new_system() -> sysinfo::System {
    sysinfo::System::new_with_specifics(sysinfo::RefreshKind::everything())
}

/// Calls `sysinfo::System::refresh_all`. Nothing is claimed of what `system`
/// holds afterwards.
#[verifier::external_body]
pub(crate) fn refresh_system(system: &mut sysinfo::System) {
    system.refresh_all();
}

/// Calls `sysinfo::System::process` for `pid` and copies what the process
/// found shows. The contract claims that the outcome is the entry of
/// `process_table` for `pid`, under the id that was asked for, and `None`
/// exactly where the table has no such entry.
#[verifier::external_body]
pub(crate) fn process_by_pid(system: &sysinfo::System, pid: u32) -> (r: Option<ProcessInfo>)
    ensures
        r is Some == process_table(*system).contains_key(pid),
        r matches Some(p) ==> p@.pid == pid && (p@.name, p@.exe_path, p@.cmd) == process_table(
            *system,
        )[pid],
{
    let process = system.process(sysinfo::Pid::from(pid as usize))?;
    let exe_path = match process.exe() {
        Some(path) => Some(path.to_string_lossy().to_string()),
        None => None,
    };
    Some(ProcessInfo { pid, name: process.name().to_string(), exe_path, cmd: process.cmd().to_vec() })
}

/// Calls `sysinfo::System::new_with_specifics` for the processes alone
/// (`RefreshKind::new().with_processes(ProcessRefreshKind::everything())`).
/// Nothing is claimed of what the new value holds.
#[verifier::external_body]
pub(crate) fn new_process_system() -> sysinfo::System {
    sysinfo::System::new_with_specifics(
        sysinfo::RefreshKind::new().with_processes(sysinfo::ProcessRefreshKind::everything()),
    )
}

/// Calls `sysinfo::System::refresh_processes`. Nothing is claimed of what
/// `system` holds afterwards.
#[verifier::external_body]
pub(crate) fn refresh_processes(system: &mut sysinfo::System) {
    system.refresh_processes();
}

/// Calls `sysinfo::System::processes` and copies the id (`Pid::as_u32`) and
/// the name (`Process::name`) of each process, in the order in which the map
/// is walked. Nothing is claimed of the outcome.
#[verifier::external_body]
pub(crate) fn process_names(system: &sysinfo::System) -> Vec<(u32, String)> {
    let mut names: Vec<(u32, String)> = Vec::new();
    for (pid, process) in system.processes() {
        names.push((pid.as_u32(), process.name().to_string()));
    }
    names
}

} // verus!
