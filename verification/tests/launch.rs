use netmount::launch::{
    copy_texts, resolve_executable, LaunchAction, LaunchEvent, LaunchState, Launcher, Platform,
    SidecarHandle, SpawnCommand, SpawnError, SpawnRequest, CREATE_NO_WINDOW,
};

fn request() -> SpawnRequest {
    SpawnRequest {
        logical_name: "rclone".to_string(),
        executable_path: "/opt/netmount/bin/rclone".to_string(),
        args: vec!["rcd".to_string(), "--rc-addr=127.0.0.1:6434".to_string()],
        working_dir: "/home/u/.netmount".to_string(),
    }
}

fn command(flags: u32) -> SpawnCommand {
    SpawnCommand {
        executable_path: "/opt/netmount/bin/rclone".to_string(),
        args: vec!["rcd".to_string(), "--rc-addr=127.0.0.1:6434".to_string()],
        working_dir: "/home/u/.netmount".to_string(),
        creation_flags: flags,
        capture_stdout: true,
        capture_stderr: true,
    }
}

#[test]
fn executable_gets_its_suffix_on_windows_only() {
    assert_eq!(resolve_executable("res/bin", "rclone", Platform::Windows), "res/bin/rclone.exe");
    assert_eq!(resolve_executable("res/bin", "rclone", Platform::Linux), "res/bin/rclone");
    assert_eq!(resolve_executable("res/bin", "openlist", Platform::MacOs), "res/bin/openlist");
    assert_eq!(resolve_executable("", "", Platform::Linux), "/");
}

#[test]
fn a_launch_checks_prepares_spawns_and_yields_the_handle() {
    let (launcher, action) = Launcher::start(request(), Platform::Linux);
    assert_eq!(
        action,
        LaunchAction::CheckExecutable { path: "/opt/netmount/bin/rclone".to_string() }
    );
    let (launcher, action) = launcher.step(LaunchEvent::ExecutableChecked { usable: true });
    assert_eq!(action, LaunchAction::EnsureDirectory { path: "/home/u/.netmount".to_string() });
    let (launcher, action) = launcher.step(LaunchEvent::DirectoryReady(Ok(())));
    assert_eq!(action, LaunchAction::Spawn(command(0)));
    let (launcher, action) = launcher.step(LaunchEvent::Spawned(Ok((4711, 1_700_000_000_000))));
    let handle = SidecarHandle {
        logical_name: "rclone".to_string(),
        pid: 4711,
        started_at: 1_700_000_000_000,
    };
    assert_eq!(action, LaunchAction::Finish(Ok(handle)));
    let (_, _, state) = launcher.into_parts();
    assert_eq!(state, LaunchState::Started { pid: 4711, started_at: 1_700_000_000_000 });
}

#[test]
fn on_windows_the_child_gets_no_console_window() {
    let (launcher, _) = Launcher::start(request(), Platform::Windows);
    let (launcher, _) = launcher.step(LaunchEvent::ExecutableChecked { usable: true });
    let (_, action) = launcher.step(LaunchEvent::DirectoryReady(Ok(())));
    assert_eq!(CREATE_NO_WINDOW, 0x0800_0000);
    assert_eq!(action, LaunchAction::Spawn(command(0x0800_0000)));
}

#[test]
fn a_missing_executable_ends_the_launch_at_once() {
    let (launcher, _) = Launcher::start(request(), Platform::Linux);
    let (launcher, action) = launcher.step(LaunchEvent::ExecutableChecked { usable: false });
    assert_eq!(action, LaunchAction::Finish(Err(SpawnError::ExecutableNotFound)));
    let (launcher, action) = launcher.step(LaunchEvent::DirectoryReady(Ok(())));
    assert_eq!(action, LaunchAction::Finish(Err(SpawnError::ExecutableNotFound)));
    let (_, action) = launcher.step(LaunchEvent::Spawned(Ok((1, 2))));
    assert_eq!(action, LaunchAction::Finish(Err(SpawnError::ExecutableNotFound)));
}

#[test]
fn an_error_of_the_operating_system_fails_the_spawn() {
    let (launcher, _) = Launcher::start(request(), Platform::Linux);
    let (launcher, _) = launcher.step(LaunchEvent::ExecutableChecked { usable: true });
    let (launcher, _) = launcher.step(LaunchEvent::DirectoryReady(Ok(())));
    let (_, action) =
        launcher.step(LaunchEvent::Spawned(Err("Permission denied (os error 13)".to_string())));
    assert_eq!(
        action,
        LaunchAction::Finish(Err(SpawnError::SpawnFailed(
            "Permission denied (os error 13)".to_string()
        )))
    );
}

#[test]
fn a_working_directory_that_cannot_be_made_fails_the_spawn() {
    let (launcher, _) = Launcher::start(request(), Platform::Linux);
    let (launcher, _) = launcher.step(LaunchEvent::ExecutableChecked { usable: true });
    let (_, action) = launcher.step(LaunchEvent::DirectoryReady(Err("read-only".to_string())));
    assert_eq!(
        action,
        LaunchAction::Finish(Err(SpawnError::SpawnFailed("read-only".to_string())))
    );
}

#[test]
fn answers_that_the_launch_does_not_wait_for_change_nothing() {
    let (launcher, _) = Launcher::start(request(), Platform::Linux);
    let (launcher, action) = launcher.step(LaunchEvent::Spawned(Ok((1, 2))));
    assert_eq!(
        action,
        LaunchAction::CheckExecutable { path: "/opt/netmount/bin/rclone".to_string() }
    );
    let (launcher, _) = launcher.step(LaunchEvent::ExecutableChecked { usable: true });
    let (_, action) = launcher.step(LaunchEvent::ExecutableChecked { usable: false });
    assert_eq!(action, LaunchAction::EnsureDirectory { path: "/home/u/.netmount".to_string() });
}

#[test]
fn a_launch_can_be_rebuilt_from_its_parts() {
    let launcher = Launcher::from_parts(request(), Platform::Linux, LaunchState::Spawning);
    assert_eq!(launcher.action(), LaunchAction::Spawn(command(0)));
    let (req, platform, state) = launcher.into_parts();
    assert_eq!(req, request());
    assert_eq!(platform, Platform::Linux);
    assert_eq!(state, LaunchState::Spawning);
}

#[test]
fn copies_of_texts_are_equal_to_the_texts() {
    let list = vec!["a".to_string(), "".to_string(), "ü".to_string()];
    assert_eq!(copy_texts(&list), list);
    assert_eq!(copy_texts(&Vec::new()), Vec::<String>::new());
}

#[test]
fn a_copy_of_a_handle_is_equal_to_the_handle() {
    let handle =
        SidecarHandle { logical_name: "rclone".to_string(), pid: 7, started_at: u64::MAX };
    assert_eq!(handle.copy(), handle);
}
