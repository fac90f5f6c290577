//! The start of one sidecar, from the request to the verdict of the probe.
//!
//! The process is launched, registered under its name and put into the
//! process group; its output is drained from then on; after the grace period
//! it is probed. Everything that touches the operating system is done by the
//! caller: [`Startup::step`] says what to do next and takes what came of it.

use crate::output::{line_views, DiagnosticLine, LineView, Stream};
use crate::error::{ErrorView, SidecarError};
use crate::group::{
    assign_process_to_job, attach_action, attach_gain, attach_next, attach_pending, attach_start,
    GroupError, JobAttach, JobCall, JobStep, ProcessGroup,
};
use crate::launch::{
    launch_next, launch_pending, launch_start, launch_step, HandleView, LaunchAction,
    LaunchActionView, LaunchEvent, LaunchEventView, LaunchState, LaunchStateView, Launcher,
    LauncherView, Platform, RequestView, SidecarHandle, SpawnError, SpawnErrorView, SpawnRequest,
};
use crate::probe::{
    no_output_line, pending, probe_start, probe_step, probe_verdict, LivenessResult, LivenessView,
    ProbeAction, ProbeActionView, ProbeConfig, ProbeEvent, ProbeEventView, ProbePhase, Prober,
    ProberView,
};
use crate::registry::{bound, Registry};
use vstd::prelude::*;

verus! {

/// Where the start of a sidecar stands.
pub enum Startup {
    /// The process is being launched.
    Launching { launcher: Launcher, probe: ProbeConfig },
    /// The process runs and is registered; it is being put into the group.
    Attaching { handle: SidecarHandle, task: JobAttach, probe: ProbeConfig },
    /// The drain of its output is being started.
    Draining { handle: SidecarHandle, attached: Result<(), GroupError>, probe: ProbeConfig },
    /// The process is being probed.
    Probing { handle: SidecarHandle, prober: Prober },
    /// The sidecar runs, or its start failed.
    Done(Result<SidecarHandle, SidecarError>),
}

/// The start of a sidecar as a plain value.
pub enum StartupView {
    Launching { launcher: LauncherView, probe: ProbeConfig },
    Attaching { handle: HandleView, task: JobAttach, probe: ProbeConfig },
    Draining { handle: HandleView, attached: Result<(), GroupError>, probe: ProbeConfig },
    Probing { handle: HandleView, prober: ProberView },
    Done(Result<HandleView, ErrorView>),
}

impl View for Startup {
    type V = StartupView;

    open spec fn view(&self) -> StartupView {
        match self {
            Startup::Launching { launcher, probe } => StartupView::Launching {
                launcher: launcher@,
                probe: *probe,
            },
            Startup::Attaching { handle, task, probe } => StartupView::Attaching {
                handle: handle@,
                task: *task,
                probe: *probe,
            },
            Startup::Draining { handle, attached, probe } => StartupView::Draining {
                handle: handle@,
                attached: *attached,
                probe: *probe,
            },
            Startup::Probing { handle, prober } => StartupView::Probing {
                handle: handle@,
                prober: prober@,
            },
            Startup::Done(Ok(handle)) => StartupView::Done(Ok(handle@)),
            Startup::Done(Err(error)) => StartupView::Done(Err(error@)),
        }
    }
}

/// What happened since the last step.
pub enum StartupEvent {
    /// An answer for the launch.
    Launch(LaunchEvent),
    /// What a call for the process group returned.
    Job(usize),
    /// The drain of the output of the sidecar runs.
    DrainsStarted,
    /// An event of the probe.
    Probe(ProbeEvent),
}

/// A startup event as a plain value.
pub enum StartupEventView {
    Launch(LaunchEventView),
    Job(usize),
    DrainsStarted,
    Probe(ProbeEventView),
}

impl View for StartupEvent {
    type V = StartupEventView;

    open spec fn view(&self) -> StartupEventView {
        match self {
            StartupEvent::Launch(event) => StartupEventView::Launch(event@),
            StartupEvent::Job(reply) => StartupEventView::Job(*reply),
            StartupEvent::DrainsStarted => StartupEventView::DrainsStarted,
            StartupEvent::Probe(event) => StartupEventView::Probe(event@),
        }
    }
}

/// What the caller is to do next.
#[derive(Debug, PartialEq, Eq)]
pub enum StartupAction {
    /// Do this for the launch, then hand in `Launch`.
    Launch(LaunchAction),
    /// Make this call for the process group, then hand in `Job`.
    Job(JobCall),
    /// Start to drain the output of the process under the given name, then
    /// hand in `DrainsStarted`. `attached` says whether the process is in the
    /// process group; if it is not, it runs all the same.
    StartDrains { name: String, pid: u32, attached: Result<(), GroupError> },
    /// Do this for the probe, then hand in `Probe`.
    Probe(ProbeAction),
    /// The start is over.
    Finish(Result<SidecarHandle, SidecarError>),
}

/// A startup action as a plain value.
pub enum StartupActionView {
    Launch(LaunchActionView),
    Job(JobCall),
    StartDrains { name: Seq<char>, pid: u32, attached: Result<(), GroupError> },
    Probe(ProbeActionView),
    Finish(Result<HandleView, ErrorView>),
}

impl View for StartupAction {
    type V = StartupActionView;

    open spec fn view(&self) -> StartupActionView {
        match self {
            StartupAction::Launch(action) => StartupActionView::Launch(action@),
            StartupAction::Job(call) => StartupActionView::Job(*call),
            StartupAction::StartDrains { name, pid, attached } => StartupActionView::StartDrains {
                name: name@,
                pid: *pid,
                attached: *attached,
            },
            StartupAction::Probe(action) => StartupActionView::Probe(action@),
            StartupAction::Finish(Ok(handle)) => StartupActionView::Finish(Ok(handle@)),
            StartupAction::Finish(Err(error)) => StartupActionView::Finish(Err(error@)),
        }
    }
}

/// The start of the sidecar that `request` asks for.
pub open spec fn startup_start(
    request: RequestView,
    platform: Platform,
    probe: ProbeConfig,
) -> StartupView {
    StartupView::Launching { launcher: launch_start(request, platform), probe }
}

/// Where the start stands once the joining of the group stands at `task`.
pub open spec fn after_attach(handle: HandleView, task: JobAttach, probe: ProbeConfig) -> StartupView {
    match task {
        JobAttach::Done(attached) => StartupView::Draining { handle, attached, probe },
        _ => StartupView::Attaching { handle, task, probe },
    }
}

/// Where the start stands once the launch stands at `launcher`.
pub open spec fn after_launch(
    launcher: LauncherView,
    job: Option<usize>,
    probe: ProbeConfig,
) -> StartupView {
    match launcher.state {
        LaunchStateView::Started { pid, started_at } => after_attach(
            HandleView { logical_name: launcher.request.logical_name, pid, started_at },
            attach_start(job, pid),
            probe,
        ),
        LaunchStateView::Failed(SpawnErrorView::ExecutableNotFound) => StartupView::Done(
            Err(
                ErrorView::ExecutableNotFound {
                    name: launcher.request.logical_name,
                    path: launcher.request.executable_path,
                },
            ),
        ),
        LaunchStateView::Failed(SpawnErrorView::SpawnFailed(reason)) => StartupView::Done(
            Err(ErrorView::SpawnFailed { name: launcher.request.logical_name, reason }),
        ),
        _ => StartupView::Launching { launcher, probe },
    }
}

/// The lines that an early exit is reported with: those collected, or the
/// one that says that there were none.
pub open spec fn early_lines(lines: Seq<LineView>) -> Seq<LineView> {
    if lines.len() == 0 {
        seq![no_output_line()]
    } else {
        lines
    }
}

/// Where the start stands once the probe stands at `prober`.
pub open spec fn after_probe(handle: HandleView, prober: ProberView) -> StartupView {
    match prober.phase {
        ProbePhase::Finished { alive } => if alive {
            StartupView::Done(Ok(handle))
        } else {
            StartupView::Done(
                Err(
                    ErrorView::EarlyExit {
                        name: handle.logical_name,
                        pid: handle.pid,
                        lines: early_lines(prober.lines),
                    },
                ),
            )
        },
        _ => StartupView::Probing { handle, prober },
    }
}

/// The state that follows `state` on `event`, where `job` is the job object
/// of the process group. An event that the start is not waiting for changes
/// nothing.
pub open spec fn startup_next(
    state: StartupView,
    job: Option<usize>,
    event: StartupEventView,
) -> StartupView {
    match (state, event) {
        (StartupView::Launching { launcher, probe }, StartupEventView::Launch(answer)) => {
            after_launch(launch_step(launcher, answer), job, probe)
        },
        (StartupView::Attaching { handle, task, probe }, StartupEventView::Job(reply)) => {
            after_attach(handle, attach_next(task, reply), probe)
        },
        (
            StartupView::Draining { handle, attached, probe },
            StartupEventView::DrainsStarted,
        ) => after_probe(handle, probe_start(handle.pid, probe)),
        (StartupView::Probing { handle, prober }, StartupEventView::Probe(seen)) => after_probe(
            handle,
            probe_step(prober, seen),
        ),
        _ => state,
    }
}

/// The table of sidecars after the step: a process that was just created is
/// bound to its name.
pub open spec fn startup_table(
    state: StartupView,
    table: Map<Seq<char>, u32>,
    event: StartupEventView,
) -> Map<Seq<char>, u32> {
    match (state, event) {
        (StartupView::Launching { launcher, probe }, StartupEventView::Launch(answer)) => {
            match launch_next(launcher.state, answer) {
                LaunchStateView::Started { pid, started_at } => table.insert(
                    launcher.request.logical_name,
                    pid,
                ),
                _ => table,
            }
        },
        _ => table,
    }
}

/// The processes in the job after the step.
pub open spec fn startup_attached(
    state: StartupView,
    attached: Seq<u32>,
    event: StartupEventView,
) -> Seq<u32> {
    match (state, event) {
        (StartupView::Attaching { handle, task, probe }, StartupEventView::Job(reply)) => {
            match attach_gain(task) {
                Some(pid) => attached.push(pid),
                None => attached,
            }
        },
        _ => attached,
    }
}

/// What a start in `state` asks of its caller.
pub open spec fn startup_pending(state: StartupView) -> StartupActionView {
    match state {
        StartupView::Launching { launcher, probe } => StartupActionView::Launch(
            launch_pending(launcher),
        ),
        StartupView::Attaching { handle, task, probe } => match attach_pending(task) {
            JobStep::Call(call) => StartupActionView::Job(call),
            JobStep::Done(attached) => StartupActionView::StartDrains {
                name: handle.logical_name,
                pid: handle.pid,
                attached,
            },
        },
        StartupView::Draining { handle, attached, probe } => StartupActionView::StartDrains {
            name: handle.logical_name,
            pid: handle.pid,
            attached,
        },
        StartupView::Probing { handle, prober } => StartupActionView::Probe(pending(prober)),
        StartupView::Done(result) => StartupActionView::Finish(result),
    }
}

/// Where the start stands once the joining of the group stands at `task`.
fn settle_attach(handle: SidecarHandle, task: JobAttach, probe: ProbeConfig) -> (state: Startup)
    ensures
        state@ == after_attach(handle@, task, probe),
{
    match task {
        JobAttach::Done(attached) => Startup::Draining { handle, attached, probe },
        _ => Startup::Attaching { handle, task, probe },
    }
}

/// Where the start stands once the probe stands at `prober`.
fn settle_probe(handle: SidecarHandle, prober: Prober) -> (state: Startup)
    ensures
        state@ == after_probe(handle@, prober@),
{
    match prober.phase() {
        ProbePhase::Finished { alive } => {
            if alive {
                Startup::Done(Ok(handle))
            } else {
                let mut lines = prober.into_lines();
                if lines.len() == 0 {
                    lines.push(DiagnosticLine::new(Stream::Exit, "exited with no output"));
                    assert(line_views(lines@) =~= seq![no_output_line()]);
                }
                Startup::Done(
                    Err(
                        SidecarError::EarlyExit {
                            name: handle.logical_name,
                            pid: handle.pid,
                            lines,
                        },
                    ),
                )
            }
        },
        _ => Startup::Probing { handle, prober },
    }
}

impl Startup {
    /// Begins the start of the sidecar that `request` asks for and says what
    /// to do first.
    pub fn start(request: SpawnRequest, platform: Platform, probe: ProbeConfig) -> (r: (
        Startup,
        StartupAction,
    ))
        ensures
            r.0@ == startup_start(request@, platform, probe),
            r.1@ == startup_pending(r.0@),
    {
        let (launcher, action) = Launcher::start(request, platform);
        (Startup::Launching { launcher, probe }, StartupAction::Launch(action))
    }

    /// What the start asks of its caller.
    pub fn action(&self) -> (action: StartupAction)
        ensures
            action@ == startup_pending(self@),
    {
        match self {
            Startup::Launching { launcher, probe } => StartupAction::Launch(launcher.action()),
            Startup::Attaching { handle, task, probe } => match attach_action(*task) {
                JobStep::Call(call) => StartupAction::Job(call),
                JobStep::Done(attached) => StartupAction::StartDrains {
                    name: handle.logical_name.clone(),
                    pid: handle.pid,
                    attached,
                },
            },
            Startup::Draining { handle, attached, probe } => StartupAction::StartDrains {
                name: handle.logical_name.clone(),
                pid: handle.pid,
                attached: *attached,
            },
            Startup::Probing { handle, prober } => StartupAction::Probe(prober.action()),
            Startup::Done(Ok(handle)) => StartupAction::Finish(Ok(handle.copy())),
            Startup::Done(Err(error)) => StartupAction::Finish(Err(error.copy())),
        }
    }

    /// Takes what came of the last action and says what to do next. A
    /// process that was created is registered under its name at once, and a
    /// process that was put into the job is noted in `group`.
    pub fn step(
        self,
        registry: &mut Registry,
        group: &mut ProcessGroup,
        event: StartupEvent,
    ) -> (r: (Startup, StartupAction))
        ensures
            r.0@ == startup_next(self@, old(group)@.job, event@),
            r.1@ == startup_pending(r.0@),
            final(registry)@ == startup_table(self@, old(registry)@, event@),
            final(group)@.job == old(group)@.job,
            final(group)@.attached == startup_attached(self@, old(group)@.attached, event@),
    {
        let next = match (self, event) {
            (Startup::Launching { launcher, probe }, StartupEvent::Launch(answer)) => {
                let (launcher, _) = launcher.step(answer);
                let (request, platform, state) = launcher.into_parts();
                match state {
                    LaunchState::Started { pid, started_at } => {
                        registry.register(request.logical_name.as_str(), pid);
                        let task = group.attach_task(pid);
                        let handle = SidecarHandle {
                            logical_name: request.logical_name,
                            pid,
                            started_at,
                        };
                        settle_attach(handle, task, probe)
                    },
                    LaunchState::Failed(SpawnError::ExecutableNotFound) => Startup::Done(
                        Err(
                            SidecarError::ExecutableNotFound {
                                name: request.logical_name,
                                path: request.executable_path,
                            },
                        ),
                    ),
                    LaunchState::Failed(SpawnError::SpawnFailed(reason)) => Startup::Done(
                        Err(SidecarError::SpawnFailed { name: request.logical_name, reason }),
                    ),
                    state => Startup::Launching {
                        launcher: Launcher::from_parts(request, platform, state),
                        probe,
                    },
                }
            },
            (Startup::Attaching { handle, task, probe }, StartupEvent::Job(reply)) => {
                let (task, _) = assign_process_to_job(group, task, reply);
                settle_attach(handle, task, probe)
            },
            (Startup::Draining { handle, attached, probe }, StartupEvent::DrainsStarted) => {
                let (prober, _) = Prober::start(handle.pid, probe);
                settle_probe(handle, prober)
            },
            (Startup::Probing { handle, prober }, StartupEvent::Probe(seen)) => {
                let (prober, _) = prober.step(seen);
                settle_probe(handle, prober)
            },
            (state, _) => state,
        };
        let action = next.action();
        (next, action)
    }
}

/// A process that was created is found under its name as soon as the step
/// that took its creation is over.
pub proof fn lemma_started_is_registered(
    launcher: LauncherView,
    probe: ProbeConfig,
    table: Map<Seq<char>, u32>,
    answer: LaunchEventView,
)
    requires
        launch_next(launcher.state, answer) is Started,
    ensures
        bound(
            startup_table(
                StartupView::Launching { launcher, probe },
                table,
                StartupEventView::Launch(answer),
            ),
            launcher.request.logical_name,
        ) == Some(launch_next(launcher.state, answer)->pid),
{
}

/// A sidecar that the probe finds alive has started: the start ends with
/// its handle, and the table of sidecars is what it was, so that the name
/// still leads to the process.
pub proof fn lemma_alive_is_started(
    handle: HandleView,
    prober: ProberView,
    job: Option<usize>,
    table: Map<Seq<char>, u32>,
)
    requires
        prober.phase == ProbePhase::Querying,
    ensures
        startup_next(
            StartupView::Probing { handle, prober },
            job,
            StartupEventView::Probe(ProbeEventView::Liveness(true)),
        ) == StartupView::Done(Ok(handle)),
        startup_table(
            StartupView::Probing { handle, prober },
            table,
            StartupEventView::Probe(ProbeEventView::Liveness(true)),
        ) == table,
{
}

/// A sidecar that the probe finds gone has failed to start: the start ends
/// with an early exit that carries the lines collected, or the one line
/// that says that there were none.
pub proof fn lemma_gone_is_early_exit(handle: HandleView, prober: ProberView, job: Option<usize>)
    requires
        prober.phase == ProbePhase::Querying,
    ensures
        startup_next(
            StartupView::Probing { handle, prober },
            job,
            StartupEventView::Probe(ProbeEventView::Liveness(false)),
        ) == StartupView::Done(
            Err(
                ErrorView::EarlyExit {
                    name: handle.logical_name,
                    pid: handle.pid,
                    lines: early_lines(prober.lines),
                },
            ),
        ),
{
}

/// A process that could not be put into the process group runs all the
/// same: no answer to a call for the group ends the start.
pub proof fn lemma_attach_failure_is_not_fatal(
    handle: HandleView,
    task: JobAttach,
    probe: ProbeConfig,
    job: Option<usize>,
    reply: usize,
)
    ensures
        !(startup_next(
            StartupView::Attaching { handle, task, probe },
            job,
            StartupEventView::Job(reply),
        ) is Done),
{
}

/// The table of sidecars changes in a step of the launch only.
pub proof fn lemma_only_launch_registers(
    state: StartupView,
    table: Map<Seq<char>, u32>,
    event: StartupEventView,
)
    requires
        !(state is Launching),
    ensures
        startup_table(state, table, event) == table,
{
}

} // verus!
