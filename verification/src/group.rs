//! The process group: the job object that ties the lifetime of the sidecars
//! to that of the supervisor.
//!
//! The calls into the operating system are made by the caller. Each task
//! here says which call to make next and takes what the call returned: a
//! handle, or zero where none was given; for the calls that only succeed or
//! fail, a number other than zero for success.

use crate::launch::Platform;
use crate::text::{decimal, decimal_text};
use vstd::prelude::*;
use vstd::string::StringExecFns;

verus! {

/// A call into the operating system.
#[derive(Clone, Copy, Debug, PartialEq, Eq, Structural)]
pub enum JobCall {
    /// Create an unnamed job object; returns its handle.
    CreateJob,
    /// Make the job end its processes when its last handle is closed.
    LimitJob { job: usize },
    /// Put the supervisor's own process into the job.
    AssignSelf { job: usize },
    /// Give the supervisor's process the identifier of [`app_user_model_id`].
    SetAppId,
    /// Open the process for quota setting and termination; returns its
    /// handle.
    OpenProcess { pid: u32 },
    /// Put the opened process into the job.
    AssignProcess { job: usize, process: usize },
    /// Close the handle. What the call returns is not looked at.
    CloseHandle { handle: usize },
}

/// Why the process group could not be set up or joined.
#[derive(Clone, Copy, Debug, PartialEq, Eq, Structural)]
pub enum GroupError {
    CreateFailed,
    LimitFailed,
    OpenFailed { pid: u32 },
    AssignFailed { pid: u32 },
}

/// What a task asks of its caller: one more call, or nothing more.
#[derive(Debug, PartialEq, Eq)]
pub enum JobStep<T> {
    Call(JobCall),
    Done(T),
}

/// The text of a group error.
pub open spec fn group_error_text(error: GroupError) -> Seq<char> {
    match error {
        GroupError::CreateFailed => "Failed to create job object"@,
        GroupError::LimitFailed => "Failed to set job object information"@,
        GroupError::OpenFailed { pid } => "Failed to open process "@ + decimal(pid as nat),
        GroupError::AssignFailed { pid } => "Failed to assign process "@ + decimal(pid as nat)
            + " to job object"@,
    }
}

impl GroupError {
    /// The text of this error.
    pub fn message(&self) -> (text: String)
        ensures
            text@ == group_error_text(*self),
    {
        match self {
            GroupError::CreateFailed => "Failed to create job object".to_owned(),
            GroupError::LimitFailed => "Failed to set job object information".to_owned(),
            GroupError::OpenFailed { pid } => {
                let mut text = "Failed to open process ".to_owned();
                text.append(decimal_text(*pid).as_str());
                text
            },
            GroupError::AssignFailed { pid } => {
                let mut text = "Failed to assign process ".to_owned();
                text.append(decimal_text(*pid).as_str());
                text.append(" to job object");
                text
            },
        }
    }
}

/// The creation of the job object.
#[derive(Clone, Copy, Debug, PartialEq, Eq)]
pub enum JobSetup {
    /// The job is being created.
    Creating,
    /// The job is being told to end its processes when it is closed.
    Limiting { job: usize },
    /// The job could not be limited and is being closed again.
    Closing { job: usize },
    /// The job exists and is limited, or it does not exist.
    Done(Result<usize, GroupError>),
}

/// What the creation of the job asks of its caller.
pub open spec fn setup_pending(state: JobSetup) -> JobStep<Result<usize, GroupError>> {
    match state {
        JobSetup::Creating => JobStep::Call(JobCall::CreateJob),
        JobSetup::Limiting { job } => JobStep::Call(JobCall::LimitJob { job }),
        JobSetup::Closing { job } => JobStep::Call(JobCall::CloseHandle { handle: job }),
        JobSetup::Done(result) => JobStep::Done(result),
    }
}

/// The state of the creation after the pending call returned `reply`.
pub open spec fn setup_next(state: JobSetup, reply: usize) -> JobSetup {
    match state {
        JobSetup::Creating => if reply == 0 {
            JobSetup::Done(Err(GroupError::CreateFailed))
        } else {
            JobSetup::Limiting { job: reply }
        },
        JobSetup::Limiting { job } => if reply != 0 {
            JobSetup::Done(Ok(job))
        } else {
            JobSetup::Closing { job }
        },
        JobSetup::Closing { job } => JobSetup::Done(Err(GroupError::LimitFailed)),
        JobSetup::Done(result) => state,
    }
}

/// What the creation of the job asks of its caller.
pub fn setup_action(state: JobSetup) -> (step: JobStep<Result<usize, GroupError>>)
    ensures
        step == setup_pending(state),
{
    match state {
        JobSetup::Creating => JobStep::Call(JobCall::CreateJob),
        JobSetup::Limiting { job } => JobStep::Call(JobCall::LimitJob { job }),
        JobSetup::Closing { job } => JobStep::Call(JobCall::CloseHandle { handle: job }),
        JobSetup::Done(result) => JobStep::Done(result),
    }
}

/// One step in the creation of the job object: takes what the pending call
/// returned and says what to do next. The creation starts in
/// `JobSetup::Creating`.
pub fn create_job_object(state: JobSetup, reply: usize) -> (r: (
    JobSetup,
    JobStep<Result<usize, GroupError>>,
))
    ensures
        r.0 == setup_next(state, reply),
        r.1 == setup_pending(r.0),
{
    let next = match state {
        JobSetup::Creating => {
            if reply == 0 {
                JobSetup::Done(Err(GroupError::CreateFailed))
            } else {
                JobSetup::Limiting { job: reply }
            }
        },
        JobSetup::Limiting { job } => {
            if reply != 0 {
                JobSetup::Done(Ok(job))
            } else {
                JobSetup::Closing { job }
            }
        },
        JobSetup::Closing { job } => JobSetup::Done(Err(GroupError::LimitFailed)),
        JobSetup::Done(result) => JobSetup::Done(result),
    };
    (next, setup_action(next))
}

/// The joining of one process to the job.
#[derive(Clone, Copy, Debug, PartialEq, Eq)]
pub enum JobAttach {
    /// The process is being opened.
    Opening { job: usize, pid: u32 },
    /// The opened process is being put into the job.
    Assigning { job: usize, pid: u32, process: usize },
    /// The handle of the process is being closed.
    Closing { pid: u32, process: usize, assigned: bool },
    /// The process is in the job, or there is no job, or it failed.
    Done(Result<(), GroupError>),
}

/// The joining of the process `pid` to the job, if there is one: without a
/// job there is nothing to do.
pub open spec fn attach_start(job: Option<usize>, pid: u32) -> JobAttach {
    match job {
        Some(job) => JobAttach::Opening { job, pid },
        None => JobAttach::Done(Ok(())),
    }
}

/// What the joining asks of its caller.
pub open spec fn attach_pending(state: JobAttach) -> JobStep<Result<(), GroupError>> {
    match state {
        JobAttach::Opening { job, pid } => JobStep::Call(JobCall::OpenProcess { pid }),
        JobAttach::Assigning { job, pid, process } => JobStep::Call(
            JobCall::AssignProcess { job, process },
        ),
        JobAttach::Closing { pid, process, assigned } => JobStep::Call(
            JobCall::CloseHandle { handle: process },
        ),
        JobAttach::Done(result) => JobStep::Done(result),
    }
}

/// The state of the joining after the pending call returned `reply`.
pub open spec fn attach_next(state: JobAttach, reply: usize) -> JobAttach {
    match state {
        JobAttach::Opening { job, pid } => if reply == 0 {
            JobAttach::Done(Err(GroupError::OpenFailed { pid }))
        } else {
            JobAttach::Assigning { job, pid, process: reply }
        },
        JobAttach::Assigning { job, pid, process } => JobAttach::Closing {
            pid,
            process,
            assigned: reply != 0,
        },
        JobAttach::Closing { pid, process, assigned } => if assigned {
            JobAttach::Done(Ok(()))
        } else {
            JobAttach::Done(Err(GroupError::AssignFailed { pid }))
        },
        JobAttach::Done(result) => state,
    }
}

/// The process that a step of the joining adds to the job, if it adds one.
pub open spec fn attach_gain(state: JobAttach) -> Option<u32> {
    match state {
        JobAttach::Closing { pid, process, assigned } => if assigned {
            Some(pid)
        } else {
            None
        },
        _ => None,
    }
}

/// What the joining asks of its caller.
pub fn attach_action(state: JobAttach) -> (step: JobStep<Result<(), GroupError>>)
    ensures
        step == attach_pending(state),
{
    match state {
        JobAttach::Opening { job, pid } => JobStep::Call(JobCall::OpenProcess { pid }),
        JobAttach::Assigning { job, pid, process } => JobStep::Call(
            JobCall::AssignProcess { job, process },
        ),
        JobAttach::Closing { pid, process, assigned } => JobStep::Call(
            JobCall::CloseHandle { handle: process },
        ),
        JobAttach::Done(result) => JobStep::Done(result),
    }
}

/// The process group of the supervisor as a plain value.
pub struct GroupView {
    /// The handle of the job object, where there is one.
    pub job: Option<usize>,
    /// The processes that were put into the job, in that order.
    pub attached: Seq<u32>,
}

/// The process group of the supervisor.
pub struct ProcessGroup {
    job: Option<usize>,
    attached: Vec<u32>,
}

impl View for ProcessGroup {
    type V = GroupView;

    closed spec fn view(&self) -> GroupView {
        GroupView { job: self.job, attached: self.attached@ }
    }
}

impl ProcessGroup {
    /// A group without a job object: sidecars are reached through the
    /// registry only.
    pub fn new() -> (group: ProcessGroup)
        ensures
            group@ == (GroupView { job: None, attached: Seq::empty() }),
    {
        ProcessGroup { job: None, attached: Vec::new() }
    }

    /// The handle of the job object, where there is one.
    pub fn job(&self) -> (job: Option<usize>)
        ensures
            job == self@.job,
    {
        self.job
    }

    /// Whether the process `pid` was put into the job.
    pub fn holds(&self, pid: u32) -> (held: bool)
        ensures
            held == self@.attached.contains(pid),
    {
        let mut i: usize = 0;
        while i < self.attached.len()
            invariant
                i <= self.attached@.len(),
                forall|k: int| 0 <= k < i ==> self.attached@[k] != pid,
            decreases self.attached@.len() - i,
        {
            if self.attached[i] == pid {
                return true;
            }
            i += 1;
        }
        false
    }

    /// The task that puts the process `pid` into the job.
    pub fn attach_task(&self, pid: u32) -> (task: JobAttach)
        ensures
            task == attach_start(self@.job, pid),
    {
        match self.job {
            Some(job) => JobAttach::Opening { job, pid },
            None => JobAttach::Done(Ok(())),
        }
    }

    /// Gives up the job object: the handle is returned for the caller to
    /// close, which ends every process in the job.
    pub fn close(&mut self) -> (handle: Option<usize>)
        ensures
            handle == old(self)@.job,
            final(self)@ == (GroupView { job: None, attached: Seq::empty() }),
    {
        let handle = self.job;
        self.job = None;
        self.attached = Vec::new();
        handle
    }
}

/// One step in putting a process into the job: takes what the pending call
/// returned and says what to do next. A process that was put into the job
/// is noted in `group`.
pub fn assign_process_to_job(group: &mut ProcessGroup, state: JobAttach, reply: usize) -> (r: (
    JobAttach,
    JobStep<Result<(), GroupError>>,
))
    ensures
        r.0 == attach_next(state, reply),
        r.1 == attach_pending(r.0),
        final(group)@.job == old(group)@.job,
        final(group)@.attached == match attach_gain(state) {
            Some(pid) => old(group)@.attached.push(pid),
            None => old(group)@.attached,
        },
{
    let next = match state {
        JobAttach::Opening { job, pid } => {
            if reply == 0 {
                JobAttach::Done(Err(GroupError::OpenFailed { pid }))
            } else {
                JobAttach::Assigning { job, pid, process: reply }
            }
        },
        JobAttach::Assigning { job, pid, process } => JobAttach::Closing {
            pid,
            process,
            assigned: reply != 0,
        },
        JobAttach::Closing { pid, process, assigned } => {
            if assigned {
                group.attached.push(pid);
                JobAttach::Done(Ok(()))
            } else {
                JobAttach::Done(Err(GroupError::AssignFailed { pid }))
            }
        },
        JobAttach::Done(result) => JobAttach::Done(result),
    };
    (next, attach_action(next))
}

/// What the setting up of the group found.
#[derive(Clone, Copy, Debug, PartialEq, Eq, Structural)]
pub struct GroupReport {
    /// The job object, where the platform has one.
    pub job: Option<usize>,
    /// Whether the supervisor's own process is in the job.
    pub adopted: bool,
    /// Whether the supervisor's process got its identifier.
    pub named: bool,
}

/// The setting up of the process group at startup.
#[derive(Clone, Copy, Debug, PartialEq, Eq)]
pub enum GroupInit {
    /// The job object is being created.
    Creating(JobSetup),
    /// The supervisor's own process is being put into the job.
    Adopting { job: usize },
    /// The supervisor's process is being given its identifier.
    Naming { job: usize, adopted: bool },
    /// The group is set up, or the job could not be created.
    Done(Result<GroupReport, GroupError>),
}

/// The setting up of the group on `platform`: only Windows has job objects.
pub open spec fn init_start(platform: Platform) -> GroupInit {
    match platform {
        Platform::Windows => GroupInit::Creating(JobSetup::Creating),
        _ => GroupInit::Done(Ok(GroupReport { job: None, adopted: false, named: false })),
    }
}

/// Where the setting up stands once the creation of the job stands at
/// `setup`.
pub open spec fn init_after_setup(setup: JobSetup) -> GroupInit {
    match setup {
        JobSetup::Done(Ok(job)) => GroupInit::Adopting { job },
        JobSetup::Done(Err(error)) => GroupInit::Done(Err(error)),
        _ => GroupInit::Creating(setup),
    }
}

/// What the setting up asks of its caller.
pub open spec fn init_pending(state: GroupInit) -> JobStep<Result<GroupReport, GroupError>> {
    match state {
        GroupInit::Creating(setup) => match setup_pending(setup) {
            JobStep::Call(call) => JobStep::Call(call),
            JobStep::Done(Ok(job)) => JobStep::Call(JobCall::AssignSelf { job }),
            JobStep::Done(Err(error)) => JobStep::Done(Err(error)),
        },
        GroupInit::Adopting { job } => JobStep::Call(JobCall::AssignSelf { job }),
        GroupInit::Naming { job, adopted } => JobStep::Call(JobCall::SetAppId),
        GroupInit::Done(result) => JobStep::Done(result),
    }
}

/// The state of the setting up after the pending call returned `reply`.
pub open spec fn init_next(state: GroupInit, reply: usize) -> GroupInit {
    match state {
        GroupInit::Creating(setup) => match setup {
            JobSetup::Done(Ok(job)) => GroupInit::Naming { job, adopted: reply != 0 },
            _ => init_after_setup(setup_next(setup, reply)),
        },
        GroupInit::Adopting { job } => GroupInit::Naming { job, adopted: reply != 0 },
        GroupInit::Naming { job, adopted } => GroupInit::Done(
            Ok(GroupReport { job: Some(job), adopted, named: reply != 0 }),
        ),
        GroupInit::Done(result) => state,
    }
}

/// The job object that a step of the setting up brings into being.
pub open spec fn init_gain(state: GroupInit, reply: usize) -> Option<usize> {
    match init_next(state, reply) {
        GroupInit::Adopting { job } => Some(job),
        _ => None,
    }
}

/// How the setting up of the group begins on `platform`.
pub fn init_task(platform: Platform) -> (state: GroupInit)
    ensures
        state == init_start(platform),
{
    match platform {
        Platform::Windows => GroupInit::Creating(JobSetup::Creating),
        _ => GroupInit::Done(Ok(GroupReport { job: None, adopted: false, named: false })),
    }
}

/// What the setting up asks of its caller.
pub fn init_action(state: GroupInit) -> (step: JobStep<Result<GroupReport, GroupError>>)
    ensures
        step == init_pending(state),
{
    match state {
        GroupInit::Creating(setup) => match setup_action(setup) {
            JobStep::Call(call) => JobStep::Call(call),
            JobStep::Done(Ok(job)) => JobStep::Call(JobCall::AssignSelf { job }),
            JobStep::Done(Err(error)) => JobStep::Done(Err(error)),
        },
        GroupInit::Adopting { job } => JobStep::Call(JobCall::AssignSelf { job }),
        GroupInit::Naming { job, adopted } => JobStep::Call(JobCall::SetAppId),
        GroupInit::Done(result) => JobStep::Done(result),
    }
}

/// One step in setting up the process group: takes what the pending call
/// returned and says what to do next. As soon as the job object exists and
/// is limited, `group` holds it. That the supervisor's own process could
/// not be put into the job, or not be given its identifier, is reported and
/// does not fail the setting up.
pub fn init_job_object(group: &mut ProcessGroup, state: GroupInit, reply: usize) -> (r: (
    GroupInit,
    JobStep<Result<GroupReport, GroupError>>,
))
    ensures
        r.0 == init_next(state, reply),
        r.1 == init_pending(r.0),
        final(group)@.attached == old(group)@.attached,
        final(group)@.job == match init_gain(state, reply) {
            Some(job) => Some(job),
            None => old(group)@.job,
        },
{
    let next = match state {
        GroupInit::Creating(setup) => match setup {
            JobSetup::Done(Ok(job)) => GroupInit::Naming { job, adopted: reply != 0 },
            _ => {
                let (after, _) = create_job_object(setup, reply);
                match after {
                    JobSetup::Done(Ok(job)) => {
                        group.job = Some(job);
                        GroupInit::Adopting { job }
                    },
                    JobSetup::Done(Err(error)) => GroupInit::Done(Err(error)),
                    _ => GroupInit::Creating(after),
                }
            },
        },
        GroupInit::Adopting { job } => GroupInit::Naming { job, adopted: reply != 0 },
        GroupInit::Naming { job, adopted } => GroupInit::Done(
            Ok(GroupReport { job: Some(job), adopted, named: reply != 0 }),
        ),
        GroupInit::Done(result) => GroupInit::Done(result),
    };
    (next, init_action(next))
}

/// Whether every character of `text` is an ASCII character other than NUL.
pub open spec fn plain_ascii(text: Seq<char>) -> bool {
    forall|i: int| 0 <= i < text.len() ==> 0 < (#[trigger] text[i]) as u32 <= 0x7f
}

/// `text` as a wide C string: one 16-bit unit for each character, and a
/// terminating zero.
pub open spec fn wide_units(text: Seq<char>) -> Seq<u16> {
    text.map_values(|c: char| c as u16).push(0u16)
}

/// Encodes `text` as a NUL-terminated UTF-16 string: the call
/// `widestring::U16CString::from_str`, and `into_vec_with_nul` on what it
/// gives, or `None` where the call fails. For a text of ASCII characters
/// without NUL the call succeeds, and the encoding has one unit for each
/// character, followed by a zero. Of other texts nothing is claimed.
#[verifier::external_body]
fn wide_c_string(text: &str) -> (wide: Option<Vec<u16>>)
    ensures
        plain_ascii(text@) ==> wide is Some,
        plain_ascii(text@) && wide is Some ==> wide->0@ == wide_units(text@),
{
    widestring::U16CString::from_str(text).ok().map(|encoded| encoded.into_vec_with_nul())
}

/// The identifier under which the task manager groups the supervisor and
/// its sidecars.
pub open spec fn app_id_text() -> Seq<char> {
    "com.vhbs.netmount"@
}

/// The application user model identifier of the supervisor as a wide C
/// string, for the call `JobCall::SetAppId`.
pub fn app_user_model_id() -> (wide: Vec<u16>)
    ensures
        wide@ == wide_units(app_id_text()),
{
    proof {
        reveal_strlit("com.vhbs.netmount");
    }
    match wide_c_string("com.vhbs.netmount") {
        Some(units) => units,
        None => Vec::new(),
    }
}

/// A process that was opened is closed again before the joining ends,
/// whether or not it could be put into the job.
pub proof fn lemma_attach_closes_process(state: JobAttach, process: usize, reply: usize)
    requires
        attach_pending(state) matches JobStep::Call(JobCall::OpenProcess { pid }),
        process != 0,
    ensures
        (attach_pending(attach_next(attach_next(state, process), reply)) matches JobStep::Call(
            JobCall::CloseHandle { handle },
        ) && handle == process),
        attach_next(attach_next(attach_next(state, process), reply), 0) is Done,
{
}

/// The joining succeeds exactly if the process could be opened and put into
/// the job; it fails with the error of the call that failed.
pub proof fn lemma_attach_outcome(job: usize, pid: u32, process: usize, assigned: usize, closed: usize)
    ensures
        attach_next(
            attach_next(attach_next(attach_start(Some(job), pid), process), assigned),
            closed,
        ) == JobAttach::Done(
            if process == 0 {
                Err(GroupError::OpenFailed { pid })
            } else if assigned == 0 {
                Err(GroupError::AssignFailed { pid })
            } else {
                Ok(())
            },
        ),
        attach_start(None, pid) == JobAttach::Done(Ok(())),
{
}

/// The creation of the job yields the job exactly if it could be created
/// and limited. A job that could not be limited is closed again.
pub proof fn lemma_setup_outcome(job: usize, limited: usize, closed: usize)
    ensures
        setup_next(setup_next(setup_next(JobSetup::Creating, job), limited), closed)
            == JobSetup::Done(
            if job == 0 {
                Err(GroupError::CreateFailed)
            } else if limited == 0 {
                Err(GroupError::LimitFailed)
            } else {
                Ok(job)
            },
        ),
        job != 0 && limited == 0 ==> (setup_pending(
            setup_next(setup_next(JobSetup::Creating, job), limited),
        ) matches JobStep::Call(JobCall::CloseHandle { handle }) && handle == job),
{
}

/// The setting up of the group on Windows yields the job exactly if the job
/// could be created and limited, and then says whether the supervisor's own
/// process joined it and was named; the job is held from the moment it is
/// limited. A job that could not be created or limited fails the setting up.
pub proof fn lemma_init_outcome(job: usize, limited: usize, adopted: usize, named: usize)
    ensures
        job != 0 && limited != 0 ==> init_next(
            init_next(
                init_next(init_next(init_start(Platform::Windows), job), limited),
                adopted,
            ),
            named,
        ) == GroupInit::Done(
            Ok(GroupReport { job: Some(job), adopted: adopted != 0, named: named != 0 }),
        ) && init_gain(init_next(init_start(Platform::Windows), job), limited) == Some(job),
        job == 0 ==> init_next(init_start(Platform::Windows), job) == GroupInit::Done(
            Err(GroupError::CreateFailed),
        ),
        job != 0 && limited == 0 ==> init_next(
            init_next(init_next(init_start(Platform::Windows), job), limited),
            adopted,
        ) == GroupInit::Done(Err(GroupError::LimitFailed)),
{
}

} // verus!
