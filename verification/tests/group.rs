use netmount::group::{
    app_user_model_id, assign_process_to_job, attach_action, create_job_object, init_action,
    init_job_object, init_task, setup_action, GroupError, GroupInit, GroupReport, JobAttach,
    JobCall, JobSetup, JobStep, ProcessGroup,
};
use netmount::launch::Platform;

#[test]
fn job_creation_creates_limits_and_yields_the_job() {
    assert_eq!(setup_action(JobSetup::Creating), JobStep::Call(JobCall::CreateJob));
    let (state, step) = create_job_object(JobSetup::Creating, 0x44);
    assert_eq!(state, JobSetup::Limiting { job: 0x44 });
    assert_eq!(step, JobStep::Call(JobCall::LimitJob { job: 0x44 }));
    let (state, step) = create_job_object(state, 1);
    assert_eq!(state, JobSetup::Done(Ok(0x44)));
    assert_eq!(step, JobStep::Done(Ok(0x44)));
    let (state, step) = create_job_object(state, 0);
    assert_eq!(state, JobSetup::Done(Ok(0x44)));
    assert_eq!(step, JobStep::Done(Ok(0x44)));
}

#[test]
fn a_job_that_cannot_be_created_fails_the_creation() {
    let (state, step) = create_job_object(JobSetup::Creating, 0);
    assert_eq!(state, JobSetup::Done(Err(GroupError::CreateFailed)));
    assert_eq!(step, JobStep::Done(Err(GroupError::CreateFailed)));
}

#[test]
fn a_job_that_cannot_be_limited_is_closed_again() {
    let (state, _) = create_job_object(JobSetup::Creating, 0x44);
    let (state, step) = create_job_object(state, 0);
    assert_eq!(state, JobSetup::Closing { job: 0x44 });
    assert_eq!(step, JobStep::Call(JobCall::CloseHandle { handle: 0x44 }));
    let (state, step) = create_job_object(state, 1);
    assert_eq!(state, JobSetup::Done(Err(GroupError::LimitFailed)));
    assert_eq!(step, JobStep::Done(Err(GroupError::LimitFailed)));
}

#[test]
fn group_errors_have_their_texts() {
    assert_eq!(GroupError::CreateFailed.message(), "Failed to create job object");
    assert_eq!(GroupError::LimitFailed.message(), "Failed to set job object information");
    assert_eq!(GroupError::OpenFailed { pid: 4242 }.message(), "Failed to open process 4242");
    assert_eq!(
        GroupError::AssignFailed { pid: 7 }.message(),
        "Failed to assign process 7 to job object"
    );
}

#[test]
fn without_a_job_there_is_nothing_to_join() {
    let group = ProcessGroup::new();
    assert_eq!(group.job(), None);
    let task = group.attach_task(4242);
    assert_eq!(task, JobAttach::Done(Ok(())));
    assert_eq!(attach_action(task), JobStep::Done(Ok(())));
    assert!(!group.holds(4242));
}

fn open_group(job: usize) -> ProcessGroup {
    let mut group = ProcessGroup::new();
    let mut state = init_task(Platform::Windows);
    for reply in [job, 1, 1, 1] {
        let (next, _) = init_job_object(&mut group, state, reply);
        state = next;
    }
    assert_eq!(group.job(), Some(job));
    group
}

#[test]
fn a_process_joins_the_job_and_its_handle_is_closed() {
    let mut group = open_group(0x44);
    let task = group.attach_task(4242);
    assert_eq!(task, JobAttach::Opening { job: 0x44, pid: 4242 });
    assert_eq!(attach_action(task), JobStep::Call(JobCall::OpenProcess { pid: 4242 }));
    let (task, step) = assign_process_to_job(&mut group, task, 0x99);
    assert_eq!(step, JobStep::Call(JobCall::AssignProcess { job: 0x44, process: 0x99 }));
    assert!(!group.holds(4242));
    let (task, step) = assign_process_to_job(&mut group, task, 1);
    assert_eq!(step, JobStep::Call(JobCall::CloseHandle { handle: 0x99 }));
    assert!(!group.holds(4242));
    let (task, step) = assign_process_to_job(&mut group, task, 1);
    assert_eq!(task, JobAttach::Done(Ok(())));
    assert_eq!(step, JobStep::Done(Ok(())));
    assert!(group.holds(4242));
    assert!(!group.holds(4243));
}

#[test]
fn a_process_that_cannot_be_opened_does_not_join() {
    let mut group = open_group(0x44);
    let task = group.attach_task(4242);
    let (task, step) = assign_process_to_job(&mut group, task, 0);
    assert_eq!(task, JobAttach::Done(Err(GroupError::OpenFailed { pid: 4242 })));
    assert_eq!(step, JobStep::Done(Err(GroupError::OpenFailed { pid: 4242 })));
    assert!(!group.holds(4242));
}

#[test]
fn a_process_that_cannot_be_assigned_is_closed_and_does_not_join() {
    let mut group = open_group(0x44);
    let task = group.attach_task(4242);
    let (task, _) = assign_process_to_job(&mut group, task, 0x99);
    let (task, step) = assign_process_to_job(&mut group, task, 0);
    assert_eq!(step, JobStep::Call(JobCall::CloseHandle { handle: 0x99 }));
    let (task, step) = assign_process_to_job(&mut group, task, 0);
    assert_eq!(task, JobAttach::Done(Err(GroupError::AssignFailed { pid: 4242 })));
    assert_eq!(step, JobStep::Done(Err(GroupError::AssignFailed { pid: 4242 })));
    assert!(!group.holds(4242));
}

#[test]
fn only_windows_sets_up_a_job() {
    let none = GroupReport { job: None, adopted: false, named: false };
    assert_eq!(init_task(Platform::Linux), GroupInit::Done(Ok(none)));
    assert_eq!(init_task(Platform::MacOs), GroupInit::Done(Ok(none)));
    assert_eq!(init_task(Platform::Windows), GroupInit::Creating(JobSetup::Creating));
    assert_eq!(init_action(init_task(Platform::Linux)), JobStep::Done(Ok(none)));
    let mut group = ProcessGroup::new();
    let (state, step) = init_job_object(&mut group, init_task(Platform::Linux), 5);
    assert_eq!(state, GroupInit::Done(Ok(none)));
    assert_eq!(step, JobStep::Done(Ok(none)));
    assert_eq!(group.job(), None);
}

#[test]
fn setting_up_the_group_creates_adopts_and_names() {
    let mut group = ProcessGroup::new();
    let state = init_task(Platform::Windows);
    assert_eq!(init_action(state), JobStep::Call(JobCall::CreateJob));
    let (state, step) = init_job_object(&mut group, state, 0x44);
    assert_eq!(step, JobStep::Call(JobCall::LimitJob { job: 0x44 }));
    assert_eq!(group.job(), None);
    let (state, step) = init_job_object(&mut group, state, 1);
    assert_eq!(state, GroupInit::Adopting { job: 0x44 });
    assert_eq!(step, JobStep::Call(JobCall::AssignSelf { job: 0x44 }));
    assert_eq!(group.job(), Some(0x44));
    let (state, step) = init_job_object(&mut group, state, 0);
    assert_eq!(state, GroupInit::Naming { job: 0x44, adopted: false });
    assert_eq!(step, JobStep::Call(JobCall::SetAppId));
    let (state, step) = init_job_object(&mut group, state, 1);
    let report = GroupReport { job: Some(0x44), adopted: false, named: true };
    assert_eq!(state, GroupInit::Done(Ok(report)));
    assert_eq!(step, JobStep::Done(Ok(report)));
    assert_eq!(group.job(), Some(0x44));
}

#[test]
fn a_job_that_cannot_be_created_fails_the_setting_up() {
    let mut group = ProcessGroup::new();
    let (state, step) = init_job_object(&mut group, init_task(Platform::Windows), 0);
    assert_eq!(state, GroupInit::Done(Err(GroupError::CreateFailed)));
    assert_eq!(step, JobStep::Done(Err(GroupError::CreateFailed)));
    assert_eq!(group.job(), None);
    let mut group = ProcessGroup::new();
    let (state, _) = init_job_object(&mut group, init_task(Platform::Windows), 0x44);
    let (state, step) = init_job_object(&mut group, state, 0);
    assert_eq!(step, JobStep::Call(JobCall::CloseHandle { handle: 0x44 }));
    let (state, _) = init_job_object(&mut group, state, 1);
    assert_eq!(state, GroupInit::Done(Err(GroupError::LimitFailed)));
    assert_eq!(group.job(), None);
}

#[test]
fn closing_the_group_hands_out_the_job_once() {
    let mut group = open_group(0x44);
    let task = group.attach_task(1);
    let (task, _) = assign_process_to_job(&mut group, task, 9);
    let (task, _) = assign_process_to_job(&mut group, task, 1);
    assign_process_to_job(&mut group, task, 1);
    assert!(group.holds(1));
    assert_eq!(group.close(), Some(0x44));
    assert_eq!(group.job(), None);
    assert!(!group.holds(1));
    assert_eq!(group.close(), None);
}

#[test]
fn the_app_id_is_a_wide_c_string() {
    let expected: Vec<u16> = "com.vhbs.netmount\0".encode_utf16().collect();
    assert_eq!(app_user_model_id(), expected);
    assert_eq!(app_user_model_id().len(), 18);
    assert_eq!(app_user_model_id()[0], 99);
    assert_eq!(*app_user_model_id().last().unwrap(), 0);
}
