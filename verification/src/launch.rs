//! Launching a sidecar: where its executable lies, how the child process is
//! to be built, and what is made of the operating system's answers.
//!
//! Looking at the file system and creating the process are done by the
//! caller: [`Launcher::step`] says what to do next and takes what came of it.

use vstd::prelude::*;
use vstd::string::StringExecFns;

verus! {

/// The operating system the supervisor runs on.
#[derive(Clone, Copy, Debug, PartialEq, Eq, Structural)]
pub enum Platform {
    Windows,
    Linux,
    MacOs,
}

/// The process creation flag that keeps a console window from opening.
pub const CREATE_NO_WINDOW: u32 = 0x0800_0000;

/// The process creation flags for a sidecar: on Windows the child gets no
/// console window; elsewhere there are none.
pub open spec fn creation_flags(platform: Platform) -> u32 {
    match platform {
        Platform::Windows => CREATE_NO_WINDOW,
        _ => 0,
    }
}

/// What is added to a logical name to get the file name of its executable.
pub open spec fn executable_suffix(platform: Platform) -> Seq<char> {
    match platform {
        Platform::Windows => ".exe"@,
        _ => ""@,
    }
}

/// The path of the executable of the sidecar `name` in the directory
/// `bin_dir`.
pub open spec fn executable_path(bin_dir: Seq<char>, name: Seq<char>, platform: Platform) -> Seq<
    char,
> {
    bin_dir + "/"@ + name + executable_suffix(platform)
}

/// The path of the executable of the sidecar `name` in the directory
/// `bin_dir`.
pub fn resolve_executable(bin_dir: &str, name: &str, platform: Platform) -> (path: String)
    ensures
        path@ == executable_path(bin_dir@, name@, platform),
{
    let mut path = bin_dir.to_owned();
    path.append("/");
    path.append(name);
    match platform {
        Platform::Windows => path.append(".exe"),
        _ => path.append(""),
    }
    path
}

/// A request to spawn a sidecar.
#[derive(Debug, PartialEq, Eq)]
pub struct SpawnRequest {
    pub logical_name: String,
    pub executable_path: String,
    pub args: Vec<String>,
    pub working_dir: String,
}

/// A spawn request as a plain value.
pub struct RequestView {
    pub logical_name: Seq<char>,
    pub executable_path: Seq<char>,
    pub args: Seq<Seq<char>>,
    pub working_dir: Seq<char>,
}

/// The texts of a list of strings.
pub open spec fn texts(list: Seq<String>) -> Seq<Seq<char>> {
    list.map_values(|s: String| s@)
}

impl View for SpawnRequest {
    type V = RequestView;

    open spec fn view(&self) -> RequestView {
        RequestView {
            logical_name: self.logical_name@,
            executable_path: self.executable_path@,
            args: texts(self.args@),
            working_dir: self.working_dir@,
        }
    }
}

/// How the child process is to be created.
#[derive(Debug, PartialEq, Eq)]
pub struct SpawnCommand {
    pub executable_path: String,
    pub args: Vec<String>,
    pub working_dir: String,
    pub creation_flags: u32,
    /// Whether the standard output of the child is captured.
    pub capture_stdout: bool,
    /// Whether the standard error of the child is captured.
    pub capture_stderr: bool,
}

/// A spawn command as a plain value.
pub struct CommandView {
    pub executable_path: Seq<char>,
    pub args: Seq<Seq<char>>,
    pub working_dir: Seq<char>,
    pub creation_flags: u32,
    pub capture_stdout: bool,
    pub capture_stderr: bool,
}

impl View for SpawnCommand {
    type V = CommandView;

    open spec fn view(&self) -> CommandView {
        CommandView {
            executable_path: self.executable_path@,
            args: texts(self.args@),
            working_dir: self.working_dir@,
            creation_flags: self.creation_flags,
            capture_stdout: self.capture_stdout,
            capture_stderr: self.capture_stderr,
        }
    }
}

/// The command that spawns `request` on `platform`. Both output pipes of
/// the child are captured, whatever the platform: its output is drained from
/// them.
pub open spec fn command_for(request: RequestView, platform: Platform) -> CommandView {
    CommandView {
        executable_path: request.executable_path,
        args: request.args,
        working_dir: request.working_dir,
        creation_flags: creation_flags(platform),
        capture_stdout: true,
        capture_stderr: true,
    }
}

/// A sidecar that was spawned.
#[derive(Debug, PartialEq, Eq)]
pub struct SidecarHandle {
    pub logical_name: String,
    pub pid: u32,
    /// Milliseconds since the Unix epoch at which the process was created.
    pub started_at: u64,
}

/// A sidecar handle as a plain value.
pub struct HandleView {
    pub logical_name: Seq<char>,
    pub pid: u32,
    pub started_at: u64,
}

impl View for SidecarHandle {
    type V = HandleView;

    open spec fn view(&self) -> HandleView {
        HandleView {
            logical_name: self.logical_name@,
            pid: self.pid,
            started_at: self.started_at,
        }
    }
}

/// Why a sidecar was not spawned.
#[derive(Debug, PartialEq, Eq)]
pub enum SpawnError {
    /// The executable is missing or cannot be executed.
    ExecutableNotFound,
    /// The operating system refused; the text is its error.
    SpawnFailed(String),
}

/// A spawn error as a plain value.
pub enum SpawnErrorView {
    ExecutableNotFound,
    SpawnFailed(Seq<char>),
}

impl View for SpawnError {
    type V = SpawnErrorView;

    open spec fn view(&self) -> SpawnErrorView {
        match self {
            SpawnError::ExecutableNotFound => SpawnErrorView::ExecutableNotFound,
            SpawnError::SpawnFailed(reason) => SpawnErrorView::SpawnFailed(reason@),
        }
    }
}

/// Where a launch stands.
#[derive(Debug, PartialEq, Eq)]
pub enum LaunchState {
    /// The executable is being looked at.
    Checking,
    /// The working directory is being created if it is absent.
    Preparing,
    /// The process is being created.
    Spawning,
    /// The process runs.
    Started { pid: u32, started_at: u64 },
    /// The launch failed.
    Failed(SpawnError),
}

/// A launch state as a plain value.
pub enum LaunchStateView {
    Checking,
    Preparing,
    Spawning,
    Started { pid: u32, started_at: u64 },
    Failed(SpawnErrorView),
}

impl View for LaunchState {
    type V = LaunchStateView;

    open spec fn view(&self) -> LaunchStateView {
        match self {
            LaunchState::Checking => LaunchStateView::Checking,
            LaunchState::Preparing => LaunchStateView::Preparing,
            LaunchState::Spawning => LaunchStateView::Spawning,
            LaunchState::Started { pid, started_at } => LaunchStateView::Started {
                pid: *pid,
                started_at: *started_at,
            },
            LaunchState::Failed(error) => LaunchStateView::Failed(error@),
        }
    }
}

/// What the operating system answered.
#[derive(Debug, PartialEq, Eq)]
pub enum LaunchEvent {
    /// Whether the executable exists and can be executed.
    ExecutableChecked { usable: bool },
    /// The working directory exists now, or the error that kept it from
    /// being created.
    DirectoryReady(Result<(), String>),
    /// The process id of the child and the time of its creation, or the
    /// error that kept it from being created.
    Spawned(Result<(u32, u64), String>),
}

/// A launch event as a plain value.
pub enum LaunchEventView {
    ExecutableChecked { usable: bool },
    DirectoryReady(Result<(), Seq<char>>),
    Spawned(Result<(u32, u64), Seq<char>>),
}

impl View for LaunchEvent {
    type V = LaunchEventView;

    open spec fn view(&self) -> LaunchEventView {
        match self {
            LaunchEvent::ExecutableChecked { usable } => LaunchEventView::ExecutableChecked {
                usable: *usable,
            },
            LaunchEvent::DirectoryReady(Ok(())) => LaunchEventView::DirectoryReady(Ok(())),
            LaunchEvent::DirectoryReady(Err(reason)) => LaunchEventView::DirectoryReady(
                Err(reason@),
            ),
            LaunchEvent::Spawned(Ok(started)) => LaunchEventView::Spawned(Ok(*started)),
            LaunchEvent::Spawned(Err(reason)) => LaunchEventView::Spawned(Err(reason@)),
        }
    }
}

/// What the caller is to do next.
#[derive(Debug, PartialEq, Eq)]
pub enum LaunchAction {
    /// See whether the file exists and can be executed, then hand in
    /// `ExecutableChecked`.
    CheckExecutable { path: String },
    /// Create the directory and its parents unless it exists, then hand in
    /// `DirectoryReady`.
    EnsureDirectory { path: String },
    /// Create the process as the command says, then hand in `Spawned`.
    Spawn(SpawnCommand),
    /// The launch is over.
    Finish(Result<SidecarHandle, SpawnError>),
}

/// A launch action as a plain value.
pub enum LaunchActionView {
    CheckExecutable { path: Seq<char> },
    EnsureDirectory { path: Seq<char> },
    Spawn(CommandView),
    Finish(Result<HandleView, SpawnErrorView>),
}

impl View for LaunchAction {
    type V = LaunchActionView;

    open spec fn view(&self) -> LaunchActionView {
        match self {
            LaunchAction::CheckExecutable { path } => LaunchActionView::CheckExecutable {
                path: path@,
            },
            LaunchAction::EnsureDirectory { path } => LaunchActionView::EnsureDirectory {
                path: path@,
            },
            LaunchAction::Spawn(command) => LaunchActionView::Spawn(command@),
            LaunchAction::Finish(Ok(handle)) => LaunchActionView::Finish(Ok(handle@)),
            LaunchAction::Finish(Err(error)) => LaunchActionView::Finish(Err(error@)),
        }
    }
}

/// The state of a launch as a plain value.
pub struct LauncherView {
    pub request: RequestView,
    pub platform: Platform,
    pub state: LaunchStateView,
}

/// The state of a launch that has just begun.
pub open spec fn launch_start(request: RequestView, platform: Platform) -> LauncherView {
    LauncherView { request, platform, state: LaunchStateView::Checking }
}

/// What a launch in the given state asks of its caller.
pub open spec fn launch_pending(launcher: LauncherView) -> LaunchActionView {
    match launcher.state {
        LaunchStateView::Checking => LaunchActionView::CheckExecutable {
            path: launcher.request.executable_path,
        },
        LaunchStateView::Preparing => LaunchActionView::EnsureDirectory {
            path: launcher.request.working_dir,
        },
        LaunchStateView::Spawning => LaunchActionView::Spawn(
            command_for(launcher.request, launcher.platform),
        ),
        LaunchStateView::Started { pid, started_at } => LaunchActionView::Finish(
            Ok(HandleView { logical_name: launcher.request.logical_name, pid, started_at }),
        ),
        LaunchStateView::Failed(error) => LaunchActionView::Finish(Err(error)),
    }
}

/// The state that follows `state` on `event`. An answer that the launch is
/// not waiting for changes nothing.
pub open spec fn launch_next(state: LaunchStateView, event: LaunchEventView) -> LaunchStateView {
    match (state, event) {
        (LaunchStateView::Checking, LaunchEventView::ExecutableChecked { usable }) => if usable {
            LaunchStateView::Preparing
        } else {
            LaunchStateView::Failed(SpawnErrorView::ExecutableNotFound)
        },
        (LaunchStateView::Preparing, LaunchEventView::DirectoryReady(Ok(_))) => {
            LaunchStateView::Spawning
        },
        (LaunchStateView::Preparing, LaunchEventView::DirectoryReady(Err(reason))) => {
            LaunchStateView::Failed(SpawnErrorView::SpawnFailed(reason))
        },
        (LaunchStateView::Spawning, LaunchEventView::Spawned(Ok(started))) => {
            LaunchStateView::Started { pid: started.0, started_at: started.1 }
        },
        (LaunchStateView::Spawning, LaunchEventView::Spawned(Err(reason))) => {
            LaunchStateView::Failed(SpawnErrorView::SpawnFailed(reason))
        },
        _ => state,
    }
}

/// The launch that follows `launcher` on `event`.
pub open spec fn launch_step(launcher: LauncherView, event: LaunchEventView) -> LauncherView {
    LauncherView { state: launch_next(launcher.state, event), ..launcher }
}

/// A copy of a list of strings.
pub fn copy_texts(list: &Vec<String>) -> (copy: Vec<String>)
    ensures
        texts(copy@) == texts(list@),
{
    let mut copy: Vec<String> = Vec::new();
    let mut i: usize = 0;
    while i < list.len()
        invariant
            i <= list@.len(),
            texts(copy@) == texts(list@).take(i as int),
        decreases list@.len() - i,
    {
        let ghost before = copy@;
        copy.push(list[i].clone());
        proof {
            assert(texts(copy@) =~= texts(before).push(list@[i as int]@));
            assert(texts(list@).take(i + 1) =~= texts(list@).take(i as int).push(
                list@[i as int]@,
            ));
        }
        i += 1;
    }
    assert(texts(list@).take(i as int) =~= texts(list@));
    copy
}

impl SpawnError {
    fn copy(&self) -> (r: SpawnError)
        ensures
            r@ == self@,
    {
        match self {
            SpawnError::ExecutableNotFound => SpawnError::ExecutableNotFound,
            SpawnError::SpawnFailed(reason) => SpawnError::SpawnFailed(reason.clone()),
        }
    }
}

impl SidecarHandle {
    /// A copy of this handle.
    pub fn copy(&self) -> (r: SidecarHandle)
        ensures
            r@ == self@,
    {
        SidecarHandle {
            logical_name: self.logical_name.clone(),
            pid: self.pid,
            started_at: self.started_at,
        }
    }
}

/// A launch in progress.
pub struct Launcher {
    request: SpawnRequest,
    platform: Platform,
    state: LaunchState,
}

impl View for Launcher {
    type V = LauncherView;

    closed spec fn view(&self) -> LauncherView {
        LauncherView { request: self.request@, platform: self.platform, state: self.state@ }
    }
}

impl Launcher {
    /// Begins the launch of `request` and says what to do first.
    pub fn start(request: SpawnRequest, platform: Platform) -> (r: (Launcher, LaunchAction))
        ensures
            r.0@ == launch_start(request@, platform),
            r.1@ == launch_pending(r.0@),
    {
        let launcher = Launcher { request, platform, state: LaunchState::Checking };
        let action = launcher.action();
        (launcher, action)
    }

    /// What the launch asks of its caller.
    pub fn action(&self) -> (action: LaunchAction)
        ensures
            action@ == launch_pending(self@),
    {
        match &self.state {
            LaunchState::Checking => LaunchAction::CheckExecutable {
                path: self.request.executable_path.clone(),
            },
            LaunchState::Preparing => LaunchAction::EnsureDirectory {
                path: self.request.working_dir.clone(),
            },
            LaunchState::Spawning => LaunchAction::Spawn(
                SpawnCommand {
                    executable_path: self.request.executable_path.clone(),
                    args: copy_texts(&self.request.args),
                    working_dir: self.request.working_dir.clone(),
                    creation_flags: match self.platform {
                        Platform::Windows => CREATE_NO_WINDOW,
                        _ => 0,
                    },
                    capture_stdout: true,
                    capture_stderr: true,
                },
            ),
            LaunchState::Started { pid, started_at } => LaunchAction::Finish(
                Ok(
                    SidecarHandle {
                        logical_name: self.request.logical_name.clone(),
                        pid: *pid,
                        started_at: *started_at,
                    },
                ),
            ),
            LaunchState::Failed(error) => LaunchAction::Finish(Err(error.copy())),
        }
    }

    /// The request, the platform and the state of the launch.
    pub fn into_parts(self) -> (parts: (SpawnRequest, Platform, LaunchState))
        ensures
            parts.0@ == self@.request,
            parts.1 == self@.platform,
            parts.2@ == self@.state,
    {
        (self.request, self.platform, self.state)
    }

    /// A launch of `request` that stands at `state`.
    pub fn from_parts(request: SpawnRequest, platform: Platform, state: LaunchState) -> (launcher:
        Launcher)
        ensures
            launcher@ == (LauncherView { request: request@, platform, state: state@ }),
    {
        Launcher { request, platform, state }
    }

    /// Takes what came of the last action and says what to do next.
    pub fn step(self, event: LaunchEvent) -> (r: (Launcher, LaunchAction))
        ensures
            r.0@ == launch_step(self@, event@),
            r.1@ == launch_pending(r.0@),
    {
        let Launcher { request, platform, state } = self;
        let next = match (state, event) {
            (LaunchState::Checking, LaunchEvent::ExecutableChecked { usable }) => {
                if usable {
                    LaunchState::Preparing
                } else {
                    LaunchState::Failed(SpawnError::ExecutableNotFound)
                }
            },
            (LaunchState::Preparing, LaunchEvent::DirectoryReady(Ok(()))) => LaunchState::Spawning,
            (LaunchState::Preparing, LaunchEvent::DirectoryReady(Err(reason))) => {
                LaunchState::Failed(SpawnError::SpawnFailed(reason))
            },
            (LaunchState::Spawning, LaunchEvent::Spawned(Ok(started))) => LaunchState::Started {
                pid: started.0,
                started_at: started.1,
            },
            (LaunchState::Spawning, LaunchEvent::Spawned(Err(reason))) => LaunchState::Failed(
                SpawnError::SpawnFailed(reason),
            ),
            (state, _) => state,
        };
        let launcher = Launcher { request, platform, state: next };
        let action = launcher.action();
        (launcher, action)
    }
}

/// The state after a sequence of answers.
pub open spec fn launch_run(state: LaunchStateView, events: Seq<LaunchEventView>) -> LaunchStateView
    decreases events.len(),
{
    if events.len() == 0 {
        state
    } else {
        launch_run(launch_next(state, events[0]), events.drop_first())
    }
}

/// A launch that has succeeded or failed stays as it is: nothing is tried
/// again.
pub proof fn lemma_launch_outcome_is_final(state: LaunchStateView, event: LaunchEventView)
    requires
        state is Started || state is Failed,
    ensures
        launch_next(state, event) == state,
{
}

/// A process is created only once the executable was found usable and the
/// working directory is there.
pub proof fn lemma_spawn_comes_last(state: LaunchStateView, event: LaunchEventView)
    ensures
        launch_next(state, event) is Spawning ==> state is Spawning || (state is Preparing
            && event matches LaunchEventView::DirectoryReady(Ok(_))),
        launch_next(state, event) is Preparing ==> state is Preparing || (state is Checking
            && event == LaunchEventView::ExecutableChecked { usable: true }),
{
}

/// What a launch comes to: with a usable executable, a working directory
/// and a process it yields the process; without a usable executable it
/// fails as `ExecutableNotFound` before anything else is tried; an error of
/// the operating system fails it as `SpawnFailed` with that error.
pub proof fn lemma_launch_outcomes(pid: u32, started_at: u64, reason: Seq<char>)
    ensures
        launch_run(
            LaunchStateView::Checking,
            seq![
                LaunchEventView::ExecutableChecked { usable: true },
                LaunchEventView::DirectoryReady(Ok(())),
                LaunchEventView::Spawned(Ok((pid, started_at))),
            ],
        ) == (LaunchStateView::Started { pid, started_at }),
        launch_run(
            LaunchStateView::Checking,
            seq![LaunchEventView::ExecutableChecked { usable: false }],
        ) == LaunchStateView::Failed(SpawnErrorView::ExecutableNotFound),
        launch_run(
            LaunchStateView::Checking,
            seq![
                LaunchEventView::ExecutableChecked { usable: true },
                LaunchEventView::DirectoryReady(Err(reason)),
            ],
        ) == LaunchStateView::Failed(SpawnErrorView::SpawnFailed(reason)),
        launch_run(
            LaunchStateView::Checking,
            seq![
                LaunchEventView::ExecutableChecked { usable: true },
                LaunchEventView::DirectoryReady(Ok(())),
                LaunchEventView::Spawned(Err(reason)),
            ],
        ) == LaunchStateView::Failed(SpawnErrorView::SpawnFailed(reason)),
{
    reveal_with_fuel(launch_run, 4);
    let a = seq![
        LaunchEventView::ExecutableChecked { usable: true },
        LaunchEventView::DirectoryReady(Ok(())),
        LaunchEventView::Spawned(Ok((pid, started_at))),
    ];
    assert(a.drop_first().drop_first().drop_first().len() == 0);
    let b = seq![LaunchEventView::ExecutableChecked { usable: false }];
    assert(b.drop_first().len() == 0);
    let c = seq![
        LaunchEventView::ExecutableChecked { usable: true },
        LaunchEventView::DirectoryReady(Err(reason)),
    ];
    assert(c.drop_first().drop_first().len() == 0);
    let d = seq![
        LaunchEventView::ExecutableChecked { usable: true },
        LaunchEventView::DirectoryReady(Ok(())),
        LaunchEventView::Spawned(Err(reason)),
    ];
    assert(d.drop_first().drop_first().drop_first().len() == 0);
}

} // verus!
