//! Registration and termination of sidecars by logical name.

use crate::group::{attach_start, GroupView, JobAttach, ProcessGroup};
use crate::registry::{bound, entry_views, lists_exactly, no_sidecars, Registry};
use vstd::prelude::*;

verus! {

/// The process id to hand to the operating system for `pid`: process ids
/// that are zero or do not fit a signed 32-bit number name no single process.
pub open spec fn signal_target(pid: u32) -> Option<i32> {
    if 0 < pid <= i32::MAX {
        Some(pid as i32)
    } else {
        None
    }
}

/// What became of one sidecar when all were terminated.
#[derive(Debug, PartialEq, Eq)]
pub struct KillReport {
    pub name: String,
    pub pid: u32,
    /// Whether the operating system accepted the termination signal.
    pub delivered: bool,
}

/// The names and process ids of a list of reports.
pub open spec fn reported(reports: Seq<KillReport>) -> Seq<(Seq<char>, u32)> {
    reports.map_values(|r: KillReport| (r.name@, r.pid))
}

/// Asks the operating system to end the process `pid`: the call
/// `nix::sys::signal::kill` with `SIGTERM`. The result says whether the call
/// reported success; nothing is claimed of it, since it depends on what
/// processes exist. A `pid` of zero or below would address a whole process
/// group and is left out.
#[verifier::external_body]
fn send_terminate(pid: i32) -> (delivered: bool)
    requires
        pid > 0,
{
    nix::sys::signal::kill(nix::unistd::Pid::from_raw(pid), nix::sys::signal::Signal::SIGTERM)
        .is_ok()
}

/// The process id to hand to the operating system for `pid`, where `pid`
/// names a single process.
pub fn signal_pid(pid: u32) -> (target: Option<i32>)
    ensures
        target == signal_target(pid),
{
    if 0 < pid && pid <= 0x7fff_ffff {
        Some(pid as i32)
    } else {
        None
    }
}

/// Whether a termination of `pid` counts as delivered, given whether the
/// operating system accepted the signal: the process id has to name a single
/// process, and the signal has to be accepted.
pub open spec fn delivery(pid: u32, accepted: bool) -> bool {
    signal_target(pid) is Some && accepted
}

/// What a termination of `pid` reports, given whether the operating system
/// accepted the signal.
pub fn signal_outcome(pid: u32, accepted: bool) -> (delivered: bool)
    ensures
        delivered == delivery(pid, accepted),
{
    match signal_pid(pid) {
        Some(_) => accepted,
        None => false,
    }
}

/// Signals the process `pid` to terminate, where `pid` names a single
/// process, and says whether the signal was delivered. A `pid` that names no
/// single process is never signalled.
pub fn terminate_process(pid: u32) -> (delivered: bool)
    ensures
        delivered ==> signal_target(pid) is Some,
{
    match signal_pid(pid) {
        Some(target) => signal_outcome(pid, send_terminate(target)),
        None => signal_outcome(pid, false),
    }
}

/// Binds the sidecar `name` to the process `pid` and returns the task that
/// puts the process into the process group. An earlier process under that
/// name is neither signalled nor waited for. The binding stands whatever
/// comes of the task.
pub fn register_sidecar_pid(
    registry: &mut Registry,
    group: &ProcessGroup,
    name: &str,
    pid: u32,
) -> (task: JobAttach)
    ensures
        final(registry)@ == old(registry)@.insert(name@, pid),
        task == attach_start(group@.job, pid),
{
    registry.register(name, pid);
    group.attach_task(pid)
}

/// The process id of the sidecar `name`, if one is registered.
pub fn get_sidecar_pid(registry: &Registry, name: &str) -> (pid: Option<u32>)
    ensures
        pid == bound(registry@, name@),
{
    registry.lookup(name)
}

/// Signals the process that a name was found bound to, if it was bound at
/// all, and says whether the signal was delivered.
pub fn kill_found(found: Option<u32>) -> (delivered: bool)
    ensures
        delivered ==> found is Some && signal_target(found->0) is Some,
{
    match found {
        Some(pid) => terminate_process(pid),
        None => false,
    }
}

/// Signals the sidecar `name` to terminate and forgets it. The result says
/// whether the signal was delivered, not whether the process has exited.
pub fn kill_sidecar(registry: &mut Registry, name: &str) -> (delivered: bool)
    ensures
        final(registry)@ == old(registry)@.remove(name@),
        delivered ==> old(registry)@.contains_key(name@) && signal_target(old(registry)@[name@])
            is Some,
{
    kill_found(registry.remove(name))
}

/// Empties the table and signals every sidecar it held to terminate. Each
/// sidecar is reported once; a second call finds the table empty and signals
/// nothing.
pub fn kill_all_sidecars(registry: &mut Registry) -> (reports: Vec<KillReport>)
    ensures
        final(registry)@ == no_sidecars(),
        lists_exactly(reported(reports@), old(registry)@),
        reports@.len() == old(registry)@.dom().len(),
        forall|i: int|
            0 <= i < reports@.len() && (#[trigger] reports@[i]).delivered ==> signal_target(
                reports@[i].pid,
            ) is Some,
{
    let mut held = registry.drain();
    let ghost drained = entry_views(held@);
    let mut reports: Vec<KillReport> = Vec::new();
    let mut i: usize = 0;
    while i < held.len()
        invariant
            i <= held@.len(),
            entry_views(held@) == drained,
            reports@.len() == i,
            reported(reports@) == drained.take(i as int),
            forall|k: int|
                0 <= k < i && (#[trigger] reports@[k]).delivered ==> signal_target(reports@[k].pid)
                    is Some,
        decreases held@.len() - i,
    {
        let name = held[i].0.clone();
        let pid = held[i].1;
        let delivered = terminate_process(pid);
        let ghost before = reports@;
        reports.push(KillReport { name, pid, delivered });
        proof {
            assert(drained[i as int] == (held@[i as int].0@, held@[i as int].1));
            assert(reported(reports@) =~= reported(before).push(drained[i as int]));
            assert(drained.take(i + 1) =~= drained.take(i as int).push(drained[i as int]));
        }
        i += 1;
    }
    assert(drained.take(i as int) =~= drained);
    reports
}

/// What is left to do when the supervisor shuts down.
pub struct Teardown {
    /// What became of each sidecar.
    pub reports: Vec<KillReport>,
    /// The handle of the job object, for the caller to close.
    pub job: Option<usize>,
}

/// Ends everything at shutdown: every registered sidecar is signalled to
/// terminate and forgotten, and the job object is given up for closing. A
/// second call finds nothing to do.
pub fn cleanup(registry: &mut Registry, group: &mut ProcessGroup) -> (teardown: Teardown)
    ensures
        final(registry)@ == no_sidecars(),
        final(group)@ == (GroupView { job: None, attached: Seq::empty() }),
        teardown.job == old(group)@.job,
        lists_exactly(reported(teardown.reports@), old(registry)@),
        teardown.reports@.len() == old(registry)@.dom().len(),
        forall|i: int|
            0 <= i < teardown.reports@.len() && (#[trigger] teardown.reports@[i]).delivered
                ==> signal_target(teardown.reports@[i].pid) is Some,
{
    let reports = kill_all_sidecars(registry);
    let job = group.close();
    Teardown { reports, job }
}

/// Once all sidecars were terminated there is none left to terminate: a list
/// of exactly the bindings of an empty table is empty.
pub proof fn lemma_nothing_left_to_kill(entries: Seq<(Seq<char>, u32)>)
    requires
        lists_exactly(entries, no_sidecars()),
    ensures
        entries.len() == 0,
{
    if entries.len() > 0 {
        assert(no_sidecars().contains_key(entries[0].0));
    }
}

} // verus!
