use netmount::output::{DiagnosticLine, Stream};
use netmount::error::{attach_error, kill_error, SidecarError};
use netmount::group::GroupError;

fn all_errors() -> Vec<SidecarError> {
    vec![
        SidecarError::ExecutableNotFound {
            name: "rclone".to_string(),
            path: "res/bin/rclone".to_string(),
        },
        SidecarError::SpawnFailed { name: "rclone".to_string(), reason: "no memory".to_string() },
        SidecarError::GroupAttachFailed {
            name: "rclone".to_string(),
            error: GroupError::OpenFailed { pid: 12 },
        },
        SidecarError::LogOpenFailed {
            path: "/data/log/sidecar-rclone.log".to_string(),
            reason: "denied".to_string(),
        },
        SidecarError::EarlyExit {
            name: "rclone".to_string(),
            pid: 4242,
            lines: vec![
                DiagnosticLine::new(Stream::Stderr, "bad flag"),
                DiagnosticLine::new(Stream::Exit, "exit: 2"),
            ],
        },
        SidecarError::KillFailed { name: "rclone".to_string(), pid: 4242 },
    ]
}

#[test]
fn failures_that_leave_the_sidecar_unusable_are_fatal() {
    let fatal: Vec<bool> = all_errors().iter().map(|e| e.is_fatal()).collect();
    assert_eq!(fatal, vec![true, true, false, false, true, false]);
}

#[test]
fn each_failure_has_its_text() {
    let texts: Vec<String> = all_errors().iter().map(|e| e.message()).collect();
    assert_eq!(
        texts,
        vec![
            "sidecar rclone: executable not found: res/bin/rclone".to_string(),
            "sidecar rclone: failed to spawn: no memory".to_string(),
            "sidecar rclone: Failed to open process 12".to_string(),
            "failed to open log /data/log/sidecar-rclone.log: denied".to_string(),
            "sidecar rclone (pid 4242) exited early:\n[stderr] bad flag\n[exit] exit: 2"
                .to_string(),
            "sidecar rclone (pid 4242): failed to terminate".to_string(),
        ]
    );
}

#[test]
fn an_early_exit_without_lines_has_only_its_heading() {
    let error = SidecarError::EarlyExit { name: "x".to_string(), pid: 0, lines: Vec::new() };
    assert_eq!(error.message(), "sidecar x (pid 0) exited early:");
}

#[test]
fn copies_of_failures_are_equal_to_the_failures() {
    for error in all_errors() {
        assert_eq!(error.copy(), error);
    }
}

#[test]
fn a_sidecar_outside_the_group_is_noted() {
    assert_eq!(attach_error("rclone", Ok(())), None);
    assert_eq!(
        attach_error("rclone", Err(GroupError::AssignFailed { pid: 9 })),
        Some(SidecarError::GroupAttachFailed {
            name: "rclone".to_string(),
            error: GroupError::AssignFailed { pid: 9 },
        })
    );
}

#[test]
fn a_signal_that_was_not_delivered_is_noted() {
    assert_eq!(kill_error("rclone", 9, true), None);
    assert_eq!(
        kill_error("rclone", 9, false),
        Some(SidecarError::KillFailed { name: "rclone".to_string(), pid: 9 })
    );
}
