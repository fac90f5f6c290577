//! Starting the supervisor when the user logs in: what has to be written or
//! run to switch it on or off on each platform, and how to tell whether it
//! is on.
//!
//! Writing files, running commands and reading the registry are done by
//! the caller.

use crate::launch::{Platform, CREATE_NO_WINDOW};
use crate::text::{chars_of, contains_text, holds_text};
use vstd::prelude::*;
use vstd::string::StringExecFns;

verus! {

/// The property list of the launch agent up to its label.
pub const PLIST_HEAD: &'static str = "\n            <?xml version=\"1.0\" encoding=\"UTF-8\"?>\
    \n            <!DOCTYPE plist PUBLIC \"-//Apple//DTD PLIST 1.0//EN\" \"http://www.apple.com/DTDs/PropertyList-1.0.dtd\">\
    \n            <plist version=\"1.0\">\
    \n            <dict>\
    \n                <key>Label</key>\
    \n                <string>";

/// The property list between its label and its program.
pub const PLIST_MIDDLE: &'static str = "</string>\
    \n                <key>ProgramArguments</key>\
    \n                <array>\
    \n                    <string>";

/// The property list after its program.
pub const PLIST_TAIL: &'static str = "</string>\
    \n                </array>\
    \n                <key>RunAtLoad</key>\
    \n                <true/>\
    \n                <key>KeepAlive</key>\
    \n                <true/>\
    \n            </dict>\
    \n            </plist>\
    \n            ";

/// The unit of the service up to its program.
pub const UNIT_HEAD: &'static str = "[Unit]\
    \nDescription=NetMount\
    \n\
    \n[Service]\
    \nExecStart=";

/// The unit of the service after its program.
pub const UNIT_TAIL: &'static str = "\nRestart=always\
    \nUser=root\
    \nGroup=root\
    \n\
    \n[Install]\
    \nWantedBy=multi-user.target\
    \n";

/// The name under which the supervisor is known to the launch service.
pub open spec fn agent_label() -> Seq<char> {
    "com.vhbs.netmount"@
}

/// The unit file of the service.
pub open spec fn service_file() -> Seq<char> {
    "/etc/systemd/system/netmount.service"@
}

/// The unit that starts `exe_path` as a service.
pub open spec fn service_unit(exe_path: Seq<char>) -> Seq<char> {
    UNIT_HEAD@ + exe_path + UNIT_TAIL@
}

/// The property list of the launch agent that starts `exe_path`.
pub open spec fn agent_plist(exe_path: Seq<char>) -> Seq<char> {
    PLIST_HEAD@ + agent_label() + PLIST_MIDDLE@ + "\""@ + exe_path + "\""@ + PLIST_TAIL@
}

/// The file of the launch agent under the home directory `home`.
pub open spec fn agent_file(home: Seq<char>) -> Seq<char> {
    home + "/Library/LaunchAgents/"@ + agent_label() + ".plist"@
}

/// The command that enters `exe_path` into the registry, or takes the
/// supervisor out of it.
pub open spec fn registry_command(enabled: bool, exe_path: Seq<char>) -> Seq<char> {
    if enabled {
        "reg add HKCU\\Software\\Microsoft\\Windows\\CurrentVersion\\Run /v NetMount /t REG_SZ /d \""@
            + exe_path + "\" /f"@
    } else {
        "reg delete HKCU\\Software\\Microsoft\\Windows\\CurrentVersion\\Run /v NetMount /f"@
    }
}

/// The value that the registry holds for the supervisor at `exe_path`.
pub open spec fn registry_value(exe_path: Seq<char>) -> Seq<char> {
    "\""@ + exe_path + "\""@
}

/// One thing to do to switch the autostart on or off.
#[derive(Debug, PartialEq, Eq)]
pub enum AutostartStep {
    /// Write the file anew with this content.
    WriteFile { path: String, content: String },
    /// Remove the file if it exists.
    RemoveFile { path: String },
    /// Run the program with these arguments and wait for it.
    Run { program: String, args: Vec<String>, creation_flags: u32 },
}

/// A step as a plain value.
pub enum StepView {
    WriteFile { path: Seq<char>, content: Seq<char> },
    RemoveFile { path: Seq<char> },
    Run { program: Seq<char>, args: Seq<Seq<char>>, creation_flags: u32 },
}

impl View for AutostartStep {
    type V = StepView;

    open spec fn view(&self) -> StepView {
        match self {
            AutostartStep::WriteFile { path, content } => StepView::WriteFile {
                path: path@,
                content: content@,
            },
            AutostartStep::RemoveFile { path } => StepView::RemoveFile { path: path@ },
            AutostartStep::Run { program, args, creation_flags } => StepView::Run {
                program: program@,
                args: args@.map_values(|a: String| a@),
                creation_flags: *creation_flags,
            },
        }
    }
}

/// The steps of a list as plain values.
pub open spec fn step_views(steps: Seq<AutostartStep>) -> Seq<StepView> {
    steps.map_values(|s: AutostartStep| s@)
}

/// What has to be done to switch the autostart of the supervisor at
/// `exe_path` on or off. On Linux the unit file is written or removed. On
/// macOS the launch agent is written and loaded; switching off does nothing
/// there. On Windows the registry is changed by a command that runs without
/// a console window.
pub open spec fn autostart_steps(
    platform: Platform,
    enabled: bool,
    exe_path: Seq<char>,
    home: Seq<char>,
) -> Seq<StepView> {
    match platform {
        Platform::Linux => if enabled {
            seq![StepView::WriteFile { path: service_file(), content: service_unit(exe_path) }]
        } else {
            seq![StepView::RemoveFile { path: service_file() }]
        },
        Platform::MacOs => if enabled {
            seq![
                StepView::WriteFile { path: agent_file(home), content: agent_plist(exe_path) },
                StepView::Run {
                    program: "launchctl"@,
                    args: seq!["load"@, agent_file(home)],
                    creation_flags: 0,
                },
            ]
        } else {
            Seq::empty()
        },
        Platform::Windows => seq![
            StepView::Run {
                program: "cmd"@,
                args: seq!["/C"@, registry_command(enabled, exe_path)],
                creation_flags: CREATE_NO_WINDOW,
            },
        ],
    }
}

/// The unit that starts `exe_path` as a service.
pub fn systemd_unit(exe_path: &str) -> (unit: String)
    ensures
        unit@ == service_unit(exe_path@),
{
    let mut unit = UNIT_HEAD.to_owned();
    unit.append(exe_path);
    unit.append(UNIT_TAIL);
    unit
}

/// The property list of the launch agent that starts `exe_path`.
pub fn launch_agent_plist(exe_path: &str) -> (plist: String)
    ensures
        plist@ == agent_plist(exe_path@),
{
    let mut plist = PLIST_HEAD.to_owned();
    plist.append("com.vhbs.netmount");
    plist.append(PLIST_MIDDLE);
    plist.append("\"");
    plist.append(exe_path);
    plist.append("\"");
    plist.append(PLIST_TAIL);
    plist
}

/// The file of the launch agent under the home directory `home`.
pub fn launch_agent_file(home: &str) -> (path: String)
    ensures
        path@ == agent_file(home@),
{
    let mut path = home.to_owned();
    path.append("/Library/LaunchAgents/");
    path.append("com.vhbs.netmount");
    path.append(".plist");
    path
}

/// The command that enters `exe_path` into the registry, or takes the
/// supervisor out of it.
pub fn registry_run_command(enabled: bool, exe_path: &str) -> (command: String)
    ensures
        command@ == registry_command(enabled, exe_path@),
{
    if enabled {
        let mut command =
            "reg add HKCU\\Software\\Microsoft\\Windows\\CurrentVersion\\Run /v NetMount /t REG_SZ /d \""
            .to_owned();
        command.append(exe_path);
        command.append("\" /f");
        command
    } else {
        "reg delete HKCU\\Software\\Microsoft\\Windows\\CurrentVersion\\Run /v NetMount /f"
            .to_owned()
    }
}

/// What has to be done to switch the autostart of the supervisor at
/// `exe_path` on or off.
pub fn set_autostart(platform: Platform, enabled: bool, exe_path: &str, home: &str) -> (steps: Vec<
    AutostartStep,
>)
    ensures
        step_views(steps@) == autostart_steps(platform, enabled, exe_path@, home@),
{
    let mut steps: Vec<AutostartStep> = Vec::new();
    match platform {
        Platform::Linux => {
            let path = "/etc/systemd/system/netmount.service".to_owned();
            if enabled {
                steps.push(AutostartStep::WriteFile { path, content: systemd_unit(exe_path) });
            } else {
                steps.push(AutostartStep::RemoveFile { path });
            }
        },
        Platform::MacOs => {
            if enabled {
                steps.push(
                    AutostartStep::WriteFile {
                        path: launch_agent_file(home),
                        content: launch_agent_plist(exe_path),
                    },
                );
                let mut args: Vec<String> = Vec::new();
                args.push("load".to_owned());
                args.push(launch_agent_file(home));
                assert(args@.map_values(|a: String| a@) =~= seq!["load"@, agent_file(home@)]);
                steps.push(
                    AutostartStep::Run { program: "launchctl".to_owned(), args, creation_flags: 0 },
                );
            }
        },
        Platform::Windows => {
            let mut args: Vec<String> = Vec::new();
            args.push("/C".to_owned());
            args.push(registry_run_command(enabled, exe_path));
            assert(args@.map_values(|a: String| a@) =~= seq![
                "/C"@,
                registry_command(enabled, exe_path@),
            ]);
            steps.push(
                AutostartStep::Run {
                    program: "cmd".to_owned(),
                    args,
                    creation_flags: CREATE_NO_WINDOW,
                },
            );
        },
    }
    assert(step_views(steps@) =~= autostart_steps(platform, enabled, exe_path@, home@));
    steps
}

/// The text of the failure of the command that changes the registry.
pub open spec fn failure_text(command: Seq<char>, stderr: Seq<char>) -> Seq<char> {
    "Failed to modify autostart setting. Command: '"@ + command + "', Error: "@ + stderr
}

/// The text of the failure of the command that changes the registry.
pub fn autostart_failure(command: &str, stderr: &str) -> (text: String)
    ensures
        text@ == failure_text(command@, stderr@),
{
    let mut text = "Failed to modify autostart setting. Command: '".to_owned();
    text.append(command);
    text.append("', Error: ");
    text.append(stderr);
    text
}

/// What has to be looked at to tell whether the autostart is on.
#[derive(Debug, PartialEq, Eq)]
pub enum AutostartQuery {
    /// Whether the file exists.
    FileExists { path: String },
    /// What the program prints, and whether it succeeds.
    CommandOutput { program: String, args: Vec<String> },
    /// The value of this name under this key of the current user.
    RegistryValue { key: String, name: String },
}

/// A query as a plain value.
pub enum QueryView {
    FileExists { path: Seq<char> },
    CommandOutput { program: Seq<char>, args: Seq<Seq<char>> },
    RegistryValue { key: Seq<char>, name: Seq<char> },
}

impl View for AutostartQuery {
    type V = QueryView;

    open spec fn view(&self) -> QueryView {
        match self {
            AutostartQuery::FileExists { path } => QueryView::FileExists { path: path@ },
            AutostartQuery::CommandOutput { program, args } => QueryView::CommandOutput {
                program: program@,
                args: args@.map_values(|a: String| a@),
            },
            AutostartQuery::RegistryValue { key, name } => QueryView::RegistryValue {
                key: key@,
                name: name@,
            },
        }
    }
}

/// What has to be looked at on `platform`.
pub open spec fn query_for(platform: Platform) -> QueryView {
    match platform {
        Platform::Linux => QueryView::FileExists { path: service_file() },
        Platform::MacOs => QueryView::CommandOutput {
            program: "launchctl"@,
            args: seq!["list"@, agent_label()],
        },
        Platform::Windows => QueryView::RegistryValue {
            key: "Software\\Microsoft\\Windows\\CurrentVersion\\Run"@,
            name: "NetMount"@,
        },
    }
}

/// What has to be looked at on `platform` to tell whether the autostart is
/// on.
pub fn autostart_query(platform: Platform) -> (query: AutostartQuery)
    ensures
        query@ == query_for(platform),
{
    match platform {
        Platform::Linux => AutostartQuery::FileExists {
            path: "/etc/systemd/system/netmount.service".to_owned(),
        },
        Platform::MacOs => {
            let mut args: Vec<String> = Vec::new();
            args.push("list".to_owned());
            args.push("com.vhbs.netmount".to_owned());
            assert(args@.map_values(|a: String| a@) =~= seq!["list"@, agent_label()]);
            AutostartQuery::CommandOutput { program: "launchctl".to_owned(), args }
        },
        Platform::Windows => AutostartQuery::RegistryValue {
            key: "Software\\Microsoft\\Windows\\CurrentVersion\\Run".to_owned(),
            name: "NetMount".to_owned(),
        },
    }
}

/// What was found.
#[derive(Debug, PartialEq, Eq)]
pub enum AutostartEvidence {
    /// Whether the file exists.
    FileExists(bool),
    /// Whether the program succeeded, and what it printed.
    CommandOutput { success: bool, stdout: String },
    /// The value, if there is one.
    RegistryValue(Option<String>),
}

/// What was found, as a plain value.
pub enum EvidenceView {
    FileExists(bool),
    CommandOutput { success: bool, stdout: Seq<char> },
    RegistryValue(Option<Seq<char>>),
}

impl View for AutostartEvidence {
    type V = EvidenceView;

    open spec fn view(&self) -> EvidenceView {
        match self {
            AutostartEvidence::FileExists(found) => EvidenceView::FileExists(*found),
            AutostartEvidence::CommandOutput { success, stdout } => EvidenceView::CommandOutput {
                success: *success,
                stdout: stdout@,
            },
            AutostartEvidence::RegistryValue(Some(value)) => EvidenceView::RegistryValue(
                Some(value@),
            ),
            AutostartEvidence::RegistryValue(None) => EvidenceView::RegistryValue(None),
        }
    }
}

/// Whether the autostart of the supervisor at `exe_path` is on, given what
/// was found: on Linux the unit file exists; on macOS the launch service
/// lists the agent; on Windows the registry holds the path of the
/// supervisor, between quotes. Evidence of another kind shows nothing.
pub open spec fn autostart_on(platform: Platform, exe_path: Seq<char>, found: EvidenceView) -> bool {
    match (platform, found) {
        (Platform::Linux, EvidenceView::FileExists(exists)) => exists,
        (Platform::MacOs, EvidenceView::CommandOutput { success, stdout }) => success
            && contains_text(stdout, agent_label()),
        (Platform::Windows, EvidenceView::RegistryValue(Some(value))) => value == registry_value(
            exe_path,
        ),
        _ => false,
    }
}

/// Whether the autostart of the supervisor at `exe_path` is on, given what
/// was found.
pub fn is_autostart(platform: Platform, exe_path: &str, found: &AutostartEvidence) -> (on: bool)
    ensures
        on == autostart_on(platform, exe_path@, found@),
{
    match (platform, found) {
        (Platform::Linux, AutostartEvidence::FileExists(exists)) => *exists,
        (Platform::MacOs, AutostartEvidence::CommandOutput { success, stdout }) => {
            *success && holds_text(&chars_of(stdout.as_str()), &chars_of("com.vhbs.netmount"))
        },
        (Platform::Windows, AutostartEvidence::RegistryValue(Some(value))) => {
            let mut expected = "\"".to_owned();
            expected.append(exe_path);
            expected.append("\"");
            *value == expected
        },
        _ => false,
    }
}

} // verus!
