use netmount::output::{DiagnosticLine, Stream};
use netmount::error::SidecarError;
use netmount::group::{init_job_object, init_task, GroupError, JobCall, ProcessGroup};
use netmount::launch::{
    LaunchAction, LaunchEvent, Platform, SidecarHandle, SpawnCommand, SpawnRequest,
};
use netmount::probe::{standard_probe, ProbeAction, ProbeEvent};
use netmount::registry::Registry;
use netmount::startup::{Startup, StartupAction, StartupEvent};

fn request() -> SpawnRequest {
    SpawnRequest {
        logical_name: "rclone".to_string(),
        executable_path: "res/bin/rclone".to_string(),
        args: vec!["rcd".to_string()],
        working_dir: "/data".to_string(),
    }
}

fn handle() -> SidecarHandle {
    SidecarHandle { logical_name: "rclone".to_string(), pid: 4242, started_at: 99 }
}

fn out(text: &str) -> DiagnosticLine {
    DiagnosticLine::new(Stream::Stdout, text)
}

/// Runs the start of `request()` up to the point where the process exists.
fn launched(registry: &mut Registry, group: &mut ProcessGroup, platform: Platform) -> (Startup, StartupAction) {
    let (startup, action) = Startup::start(request(), platform, standard_probe());
    assert_eq!(
        action,
        StartupAction::Launch(LaunchAction::CheckExecutable { path: "res/bin/rclone".to_string() })
    );
    let (startup, action) = startup.step(
        registry,
        group,
        StartupEvent::Launch(LaunchEvent::ExecutableChecked { usable: true }),
    );
    assert_eq!(
        action,
        StartupAction::Launch(LaunchAction::EnsureDirectory { path: "/data".to_string() })
    );
    let (startup, action) =
        startup.step(registry, group, StartupEvent::Launch(LaunchEvent::DirectoryReady(Ok(()))));
    assert!(matches!(action, StartupAction::Launch(LaunchAction::Spawn(SpawnCommand { .. }))));
    assert_eq!(registry.lookup("rclone"), None);
    startup.step(registry, group, StartupEvent::Launch(LaunchEvent::Spawned(Ok((4242, 99)))))
}

#[test]
fn a_spawned_sidecar_is_registered_at_once() {
    let mut registry = Registry::new();
    let mut group = ProcessGroup::new();
    let (_, action) = launched(&mut registry, &mut group, Platform::Linux);
    assert_eq!(registry.lookup("rclone"), Some(4242));
    assert_eq!(
        action,
        StartupAction::StartDrains { name: "rclone".to_string(), pid: 4242, attached: Ok(()) }
    );
}

#[test]
fn a_sidecar_that_stays_alive_has_started_and_stays_registered() {
    let mut registry = Registry::new();
    let mut group = ProcessGroup::new();
    let (startup, _) = launched(&mut registry, &mut group, Platform::Linux);
    let (startup, action) = startup.step(&mut registry, &mut group, StartupEvent::DrainsStarted);
    assert_eq!(action, StartupAction::Probe(ProbeAction::Sleep { millis: 500 }));
    let (startup, action) =
        startup.step(&mut registry, &mut group, StartupEvent::Probe(ProbeEvent::GraceElapsed));
    assert_eq!(action, StartupAction::Probe(ProbeAction::Receive { timeout_ms: 50 }));
    let (startup, _) =
        startup.step(&mut registry, &mut group, StartupEvent::Probe(ProbeEvent::Line(out("up"))));
    let (startup, action) =
        startup.step(&mut registry, &mut group, StartupEvent::Probe(ProbeEvent::NoLine));
    assert_eq!(action, StartupAction::Probe(ProbeAction::QueryLiveness { pid: 4242 }));
    let (startup, action) =
        startup.step(&mut registry, &mut group, StartupEvent::Probe(ProbeEvent::Liveness(true)));
    assert_eq!(action, StartupAction::Finish(Ok(handle())));
    assert_eq!(startup.action(), StartupAction::Finish(Ok(handle())));
    assert_eq!(registry.lookup("rclone"), Some(4242));
}

#[test]
fn a_sidecar_that_is_gone_fails_with_its_lines() {
    let mut registry = Registry::new();
    let mut group = ProcessGroup::new();
    let (startup, _) = launched(&mut registry, &mut group, Platform::Linux);
    let (startup, _) = startup.step(&mut registry, &mut group, StartupEvent::DrainsStarted);
    let (mut startup, _) =
        startup.step(&mut registry, &mut group, StartupEvent::Probe(ProbeEvent::GraceElapsed));
    for text in ["one", "two", "three"] {
        let (next, _) = startup.step(
            &mut registry,
            &mut group,
            StartupEvent::Probe(ProbeEvent::Line(out(text))),
        );
        startup = next;
    }
    let (startup, _) =
        startup.step(&mut registry, &mut group, StartupEvent::Probe(ProbeEvent::NoLine));
    let (_, action) =
        startup.step(&mut registry, &mut group, StartupEvent::Probe(ProbeEvent::Liveness(false)));
    let error = SidecarError::EarlyExit {
        name: "rclone".to_string(),
        pid: 4242,
        lines: vec![out("one"), out("two"), out("three")],
    };
    assert_eq!(
        error.message(),
        "sidecar rclone (pid 4242) exited early:\n[stdout] one\n[stdout] two\n[stdout] three"
    );
    assert_eq!(action, StartupAction::Finish(Err(error)));
    assert_eq!(registry.lookup("rclone"), Some(4242));
}

#[test]
fn a_sidecar_that_is_gone_without_output_fails_with_the_no_output_line() {
    let mut registry = Registry::new();
    let mut group = ProcessGroup::new();
    let (startup, _) = launched(&mut registry, &mut group, Platform::Linux);
    let (startup, _) = startup.step(&mut registry, &mut group, StartupEvent::DrainsStarted);
    let (startup, _) =
        startup.step(&mut registry, &mut group, StartupEvent::Probe(ProbeEvent::GraceElapsed));
    let (startup, _) =
        startup.step(&mut registry, &mut group, StartupEvent::Probe(ProbeEvent::NoLine));
    let (_, action) =
        startup.step(&mut registry, &mut group, StartupEvent::Probe(ProbeEvent::Liveness(false)));
    assert_eq!(
        action,
        StartupAction::Finish(Err(SidecarError::EarlyExit {
            name: "rclone".to_string(),
            pid: 4242,
            lines: vec![DiagnosticLine::new(Stream::Exit, "exited with no output")],
        }))
    );
}

#[test]
fn a_missing_executable_fails_the_start_and_registers_nothing() {
    let mut registry = Registry::new();
    let mut group = ProcessGroup::new();
    let (startup, _) = Startup::start(request(), Platform::Linux, standard_probe());
    let (startup, action) = startup.step(
        &mut registry,
        &mut group,
        StartupEvent::Launch(LaunchEvent::ExecutableChecked { usable: false }),
    );
    let error = SidecarError::ExecutableNotFound {
        name: "rclone".to_string(),
        path: "res/bin/rclone".to_string(),
    };
    assert_eq!(action, StartupAction::Finish(Err(error.copy())));
    let (_, action) = startup.step(&mut registry, &mut group, StartupEvent::DrainsStarted);
    assert_eq!(action, StartupAction::Finish(Err(error)));
    assert!(registry.is_empty());
}

#[test]
fn a_failed_spawn_fails_the_start_and_registers_nothing() {
    let mut registry = Registry::new();
    let mut group = ProcessGroup::new();
    let (startup, _) = Startup::start(request(), Platform::Linux, standard_probe());
    let (startup, _) = startup.step(
        &mut registry,
        &mut group,
        StartupEvent::Launch(LaunchEvent::ExecutableChecked { usable: true }),
    );
    let (startup, _) = startup.step(
        &mut registry,
        &mut group,
        StartupEvent::Launch(LaunchEvent::DirectoryReady(Ok(()))),
    );
    let (_, action) = startup.step(
        &mut registry,
        &mut group,
        StartupEvent::Launch(LaunchEvent::Spawned(Err("exec format error".to_string()))),
    );
    assert_eq!(
        action,
        StartupAction::Finish(Err(SidecarError::SpawnFailed {
            name: "rclone".to_string(),
            reason: "exec format error".to_string(),
        }))
    );
    assert!(registry.is_empty());
}

fn open_group(job: usize) -> ProcessGroup {
    let mut group = ProcessGroup::new();
    let mut state = init_task(Platform::Windows);
    for reply in [job, 1, 1, 1] {
        let (next, _) = init_job_object(&mut group, state, reply);
        state = next;
    }
    group
}

#[test]
fn with_a_job_the_process_joins_it_before_its_output_is_drained() {
    let mut registry = Registry::new();
    let mut group = open_group(0x44);
    let (startup, action) = launched(&mut registry, &mut group, Platform::Windows);
    assert_eq!(registry.lookup("rclone"), Some(4242));
    assert_eq!(action, StartupAction::Job(JobCall::OpenProcess { pid: 4242 }));
    let (startup, action) = startup.step(&mut registry, &mut group, StartupEvent::Job(0x99));
    assert_eq!(action, StartupAction::Job(JobCall::AssignProcess { job: 0x44, process: 0x99 }));
    let (startup, action) = startup.step(&mut registry, &mut group, StartupEvent::Job(1));
    assert_eq!(action, StartupAction::Job(JobCall::CloseHandle { handle: 0x99 }));
    let (_, action) = startup.step(&mut registry, &mut group, StartupEvent::Job(1));
    assert_eq!(
        action,
        StartupAction::StartDrains { name: "rclone".to_string(), pid: 4242, attached: Ok(()) }
    );
    assert!(group.holds(4242));
}

#[test]
fn a_process_that_cannot_join_the_job_runs_all_the_same() {
    let mut registry = Registry::new();
    let mut group = open_group(0x44);
    let (startup, _) = launched(&mut registry, &mut group, Platform::Windows);
    let (startup, action) = startup.step(&mut registry, &mut group, StartupEvent::Job(0));
    assert_eq!(
        action,
        StartupAction::StartDrains {
            name: "rclone".to_string(),
            pid: 4242,
            attached: Err(GroupError::OpenFailed { pid: 4242 }),
        }
    );
    let (_, action) = startup.step(&mut registry, &mut group, StartupEvent::DrainsStarted);
    assert_eq!(action, StartupAction::Probe(ProbeAction::Sleep { millis: 500 }));
    assert!(!group.holds(4242));
    assert_eq!(registry.lookup("rclone"), Some(4242));
}

#[test]
fn events_that_the_start_does_not_wait_for_change_nothing() {
    let mut registry = Registry::new();
    let mut group = ProcessGroup::new();
    let (startup, first) = Startup::start(request(), Platform::Linux, standard_probe());
    let (startup, action) = startup.step(&mut registry, &mut group, StartupEvent::Job(1));
    assert_eq!(action, first);
    let (startup, action) = startup.step(&mut registry, &mut group, StartupEvent::DrainsStarted);
    assert_eq!(action, first);
    let (_, action) =
        startup.step(&mut registry, &mut group, StartupEvent::Probe(ProbeEvent::Liveness(true)));
    assert_eq!(action, first);
    assert!(registry.is_empty());
}
