//! The system service the agent is installed as: its names, how the output of the service
//! managers is read, and the results reported for each service action.
use vstd::prelude::*;

use crate::protocol::PlatformId;
use crate::text::{contains, contains_seq, is_blank, is_blank_seq, join_seq, owned, strings_view, trim, trim_seq};

verus! {

/// The name of the Windows service.
pub const WINDOWS_SERVICE_NAME: &'static str = "RemoteTerminalCloudAgent";

/// The launchd label of the macOS service.
pub const MACOS_SERVICE_LABEL: &'static str = "com.remote-terminal-cloud.agent";

/// Where the macOS service definition is installed.
pub const MACOS_PLIST_PATH: &'static str =
    "/Library/LaunchDaemons/com.remote-terminal-cloud.agent.plist";

/// The systemd unit of the Linux service.
pub const LINUX_SYSTEMD_SERVICE_NAME: &'static str = "remote-terminal-cloud-agent.service";

/// The outcome of a service action as reported to the user.
#[derive(Debug, Clone)]
pub struct ServiceActionResult {
    pub action: String,
    pub ok: bool,
    pub message: String,
}

/// The state of the Windows service as `sc query` reports it.
#[derive(Debug, Clone, PartialEq)]
pub enum ServiceState {
    Running,
    Stopped,
    Missing,
    Unknown(String),
}

/// `sc query` says the service does not exist.
pub open spec fn reports_missing(text: Seq<char>) -> bool {
    contains_seq(text, "FAILED 1060"@) || contains_seq(text, "service does not exist"@)
        || contains_seq(text, "not installed"@)
}

/// `sc query` says the service is stopped.
pub open spec fn reports_stopped(text: Seq<char>) -> bool {
    contains_seq(text, "STOPPED"@) || contains_seq(text, "stopped"@)
}

/// `sc query` says the service is running.
pub open spec fn reports_running(text: Seq<char>) -> bool {
    contains_seq(text, "RUNNING"@) || contains_seq(text, "running"@)
}

/// Reads the state of the service from the text `sc query` printed (on stdout, or on
/// stderr when stdout is blank). A missing service wins over a stopped one, a stopped one
/// over a running one; any other text is returned trimmed as an unknown state.
pub fn parse_sc_query_output(text: &str) -> (r: ServiceState)
    ensures
        match r {
            ServiceState::Missing => reports_missing(text@),
            ServiceState::Stopped => !reports_missing(text@) && reports_stopped(text@),
            ServiceState::Running => !reports_missing(text@) && !reports_stopped(text@)
                && reports_running(text@),
            ServiceState::Unknown(s) => !reports_missing(text@) && !reports_stopped(text@)
                && !reports_running(text@) && s@ == trim_seq(text@),
        },
{
    if contains(text, "FAILED 1060") || contains(text, "service does not exist") || contains(
        text,
        "not installed",
    ) {
        return ServiceState::Missing;
    }
    if contains(text, "STOPPED") || contains(text, "stopped") {
        return ServiceState::Stopped;
    }
    if contains(text, "RUNNING") || contains(text, "running") {
        return ServiceState::Running;
    }
    ServiceState::Unknown(trim(text))
}

/// What a finished command printed, and whether it exited successfully.
#[derive(Debug, Clone)]
pub struct CommandOutput {
    pub success: bool,
    pub stdout: String,
    pub stderr: String,
}

fn action_result(action: &str, ok: bool, message: String) -> (r: ServiceActionResult)
    ensures
        r.action@ == action@,
        r.ok == ok,
        r.message@ == message@,
{
    ServiceActionResult { action: owned(action), ok, message }
}

fn concat2(a: &str, b: &str) -> (r: String)
    ensures
        r@ == a@ + b@,
{
    let mut s = owned(a);
    s.append(b);
    s
}

fn concat3(a: &str, b: &str, c: &str) -> (r: String)
    ensures
        r@ == a@ + b@ + c@,
{
    let mut s = owned(a);
    s.append(b);
    s.append(c);
    s
}

/// What the Linux service status reports: without `systemctl` a failure saying so; when
/// `systemctl status` ran, its trimmed stdout (or its trimmed stderr when stdout is blank)
/// and whether it succeeded; when it could not run, a failure naming the error.
pub open spec fn systemd_status(systemctl_available: bool, output: Result<CommandOutput, String>) -> (
    Seq<char>,
    bool,
    Seq<char>,
) {
    if !systemctl_available {
        ("status"@, false, "systemctl is not available on this host."@)
    } else {
        match output {
            Ok(out) => (
                "status"@,
                out.success,
                trim_seq(
                    if !is_blank_seq(out.stdout@) {
                        out.stdout@
                    } else {
                        out.stderr@
                    },
                ),
            ),
            Err(e) => ("status"@, false, "failed to query systemd service: "@ + e@),
        }
    }
}

/// The Linux service status (see `systemd_status`).
pub fn systemd_status_result(systemctl_available: bool, output: Result<CommandOutput, String>) -> (r:
    ServiceActionResult)
    ensures
        result_view(r) == systemd_status(systemctl_available, output),
{
    if !systemctl_available {
        return action_result("status", false, owned("systemctl is not available on this host."));
    }
    match output {
        Ok(out) => {
            let text = if !is_blank(out.stdout.as_str()) {
                trim(out.stdout.as_str())
            } else {
                trim(out.stderr.as_str())
            };
            action_result("status", out.success, text)
        },
        Err(e) => action_result("status", false, concat2("failed to query systemd service: ", e.as_str())),
    }
}

/// The install root of the Linux service, trimmed; a blank root is refused.
pub fn linux_install_root(install_root: &str) -> (r: Result<String, String>)
    ensures
        is_blank_seq(install_root@) ==> (r matches Err(e) && e@
            == "linux service install requires an install_root"@),
        !is_blank_seq(install_root@) ==> (r matches Ok(root) && root@ == trim_seq(install_root@)),
{
    let root = trim(install_root);
    if root.as_str().unicode_len() == 0 {
        Err(owned("linux service install requires an install_root"))
    } else {
        Ok(root)
    }
}

/// The result of a successful Linux install from the given (trimmed) root.
pub fn linux_install_result(root: &str) -> (r: ServiceActionResult)
    ensures
        r.action@ == "install"@,
        r.ok,
        r.message@ == "systemd service '"@ + LINUX_SYSTEMD_SERVICE_NAME@
            + "' enabled and started for install root "@ + root@,
{
    let mut m = concat3("systemd service '", LINUX_SYSTEMD_SERVICE_NAME, "' enabled and started for install root ");
    m.append(root);
    action_result("install", true, m)
}

/// The result of a Linux uninstall.
pub fn linux_uninstall_result() -> (r: ServiceActionResult)
    ensures
        r.action@ == "uninstall"@,
        r.ok,
        r.message@ == "systemd service '"@ + LINUX_SYSTEMD_SERVICE_NAME@ + "' disabled"@,
{
    action_result("uninstall", true, concat3("systemd service '", LINUX_SYSTEMD_SERVICE_NAME, "' disabled"))
}

/// The result of a successful `systemctl` start, stop or restart: the action with `ed`
/// appended, as in `systemd service '...' started`.
pub fn systemctl_action_result(action: &str) -> (r: ServiceActionResult)
    ensures
        r.action@ == action@,
        r.ok,
        r.message@ == "systemd service '"@ + LINUX_SYSTEMD_SERVICE_NAME@ + "' "@ + action@ + "ed"@,
{
    let mut m = concat3("systemd service '", LINUX_SYSTEMD_SERVICE_NAME, "' ");
    m.append(action);
    m.append("ed");
    action_result(action, true, m)
}

/// The error when `systemctl` exits unsuccessfully: its arguments joined by spaces.
pub fn systemctl_failure_message(args: &Vec<String>) -> (r: String)
    ensures
        r@ == "systemctl "@ + join_seq(crate::text::strings_view(args@), " "@) + " failed"@,
{
    let joined = crate::text::join_strings(args, " ");
    concat3("systemctl ", joined.as_str(), " failed")
}

/// `launchctl print` succeeded: the service is loaded, and running when its output says
/// `state = running`.
pub open spec fn launchd_running(stdout: Seq<char>) -> bool {
    contains_seq(stdout, "state = running"@)
}

/// `launchctl print` failed because the service is not installed.
pub open spec fn launchd_not_found(stderr: Seq<char>) -> bool {
    contains_seq(stderr, "Could not find service"@) || contains_seq(stderr, "service not found"@)
}

/// What the macOS service status reports: running or loaded when `launchctl print`
/// succeeded; not installed (which is no failure) when it could not find the service; any
/// other failure with its trimmed stderr; and a failure naming the error when it could not
/// run.
pub open spec fn launchd_status(output: Result<CommandOutput, String>) -> (Seq<char>, bool, Seq<char>) {
    match output {
        Ok(out) => if out.success {
            (
                "status"@,
                true,
                "launchd service '"@ + MACOS_SERVICE_LABEL@ + (if launchd_running(out.stdout@) {
                    "' is running"@
                } else {
                    "' is loaded but not running"@
                }),
            )
        } else if launchd_not_found(out.stderr@) {
            ("status"@, true, "launchd service '"@ + MACOS_SERVICE_LABEL@ + "' is not installed (pending)"@)
        } else {
            ("status"@, false, "launchd service status error: "@ + trim_seq(out.stderr@))
        },
        Err(e) => ("status"@, false, "failed to query launchd: "@ + e@),
    }
}

/// The macOS service status (see `launchd_status`).
pub fn launchd_status_result(output: Result<CommandOutput, String>) -> (r: ServiceActionResult)
    ensures
        result_view(r) == launchd_status(output),
{
    match output {
        Ok(out) => {
            if out.success {
                let tail = if contains(out.stdout.as_str(), "state = running") {
                    "' is running"
                } else {
                    "' is loaded but not running"
                };
                action_result("status", true, concat3("launchd service '", MACOS_SERVICE_LABEL, tail))
            } else if contains(out.stderr.as_str(), "Could not find service") || contains(
                out.stderr.as_str(),
                "service not found",
            ) {
                action_result(
                    "status",
                    true,
                    concat3("launchd service '", MACOS_SERVICE_LABEL, "' is not installed (pending)"),
                )
            } else {
                let t = trim(out.stderr.as_str());
                action_result("status", false, concat2("launchd service status error: ", t.as_str()))
            }
        },
        Err(e) => action_result("status", false, concat2("failed to query launchd: ", e.as_str())),
    }
}

/// The actions a service manager performs on the agent's service.
#[derive(Debug, Clone, Copy, PartialEq, Eq, Structural)]
pub enum ServiceAction {
    Install,
    Uninstall,
    Start,
    Stop,
    Restart,
}

/// The name of each action, as reported in results.
pub open spec fn action_name(a: ServiceAction) -> Seq<char> {
    match a {
        ServiceAction::Install => "install"@,
        ServiceAction::Uninstall => "uninstall"@,
        ServiceAction::Start => "start"@,
        ServiceAction::Stop => "stop"@,
        ServiceAction::Restart => "restart"@,
    }
}

impl ServiceAction {
    /// The name of the action, such as `install`.
    pub fn as_str(self) -> (r: &'static str)
        ensures
            r@ == action_name(self),
    {
        match self {
            ServiceAction::Install => "install",
            ServiceAction::Uninstall => "uninstall",
            ServiceAction::Start => "start",
            ServiceAction::Stop => "stop",
            ServiceAction::Restart => "restart",
        }
    }
}

/// How launchd results describe each action once done.
pub open spec fn launchd_outcome(a: ServiceAction) -> Seq<char> {
    match a {
        ServiceAction::Install => "installed"@,
        ServiceAction::Uninstall => "uninstalled"@,
        ServiceAction::Start => "started"@,
        ServiceAction::Stop => "stopped (disabled)"@,
        ServiceAction::Restart => "restarted"@,
    }
}

/// The result of a successful launchd action, such as
/// `launchd service 'com.remote-terminal-cloud.agent' started`.
pub fn launchd_action_result(action: ServiceAction) -> (r: ServiceActionResult)
    ensures
        r.action@ == action_name(action),
        r.ok,
        r.message@ == "launchd service '"@ + MACOS_SERVICE_LABEL@ + "' "@ + launchd_outcome(action),
{
    let word = match action {
        ServiceAction::Install => "installed",
        ServiceAction::Uninstall => "uninstalled",
        ServiceAction::Start => "started",
        ServiceAction::Stop => "stopped (disabled)",
        ServiceAction::Restart => "restarted",
    };
    let mut m = concat3("launchd service '", MACOS_SERVICE_LABEL, "' ");
    m.append(word);
    action_result(action.as_str(), true, m)
}

/// The launchd definition of the service for an install root: it runs
/// `<root>/bin/rtc-agent` with `RTC_CONFIG_FILE` set to `<root>/config.json`, from `<root>`,
/// at load and kept alive, logging under `/Library/Logs/RemoteTerminalCloudAgent`.
pub open spec fn launchd_plist(install_root: Seq<char>) -> Seq<char> {
    "<?xml version=\"1.0\" encoding=\"UTF-8\"?>\n<!DOCTYPE plist PUBLIC \"-//Apple//DTD PLIST 1.0//EN\" \"http://www.apple.com/DTDs/PropertyList-1.0.dtd\">\n<plist version=\"1.0\">\n<dict>\n    <key>Label</key>\n    <string>com.remote-terminal-cloud.agent</string>\n    <key>ProgramArguments</key>\n    <array>\n        <string>"@
        + install_root
        + "/bin/rtc-agent</string>\n    </array>\n    <key>EnvironmentVariables</key>\n    <dict>\n        <key>RTC_CONFIG_FILE</key>\n        <string>"@
        + install_root
        + "/config.json</string>\n    </dict>\n    <key>RunAtLoad</key>\n    <true/>\n    <key>KeepAlive</key>\n    <true/>\n    <key>WorkingDirectory</key>\n    <string>"@
        + install_root
        + "</string>\n    <key>StandardOutPath</key>\n    <string>/Library/Logs/RemoteTerminalCloudAgent/stdout.log</string>\n    <key>StandardErrorPath</key>\n    <string>/Library/Logs/RemoteTerminalCloudAgent/stderr.log</string>\n</dict>\n</plist>\n"@
}

/// Writes the launchd definition of the service (see `launchd_plist`).
pub fn generate_launchd_plist(install_root: &str) -> (r: String)
    ensures
        r@ == launchd_plist(install_root@),
{
    let mut s = owned(
        "<?xml version=\"1.0\" encoding=\"UTF-8\"?>\n<!DOCTYPE plist PUBLIC \"-//Apple//DTD PLIST 1.0//EN\" \"http://www.apple.com/DTDs/PropertyList-1.0.dtd\">\n<plist version=\"1.0\">\n<dict>\n    <key>Label</key>\n    <string>com.remote-terminal-cloud.agent</string>\n    <key>ProgramArguments</key>\n    <array>\n        <string>",
    );
    s.append(install_root);
    s.append(
        "/bin/rtc-agent</string>\n    </array>\n    <key>EnvironmentVariables</key>\n    <dict>\n        <key>RTC_CONFIG_FILE</key>\n        <string>",
    );
    s.append(install_root);
    s.append(
        "/config.json</string>\n    </dict>\n    <key>RunAtLoad</key>\n    <true/>\n    <key>KeepAlive</key>\n    <true/>\n    <key>WorkingDirectory</key>\n    <string>",
    );
    s.append(install_root);
    s.append(
        "</string>\n    <key>StandardOutPath</key>\n    <string>/Library/Logs/RemoteTerminalCloudAgent/stdout.log</string>\n    <key>StandardErrorPath</key>\n    <string>/Library/Logs/RemoteTerminalCloudAgent/stderr.log</string>\n</dict>\n</plist>\n",
    );
    s
}

/// What the Windows service status reports: the output of `sc query` as printed (stdout,
/// or stderr when stdout is empty) and whether it succeeded; a failure naming the error
/// when it could not run.
pub open spec fn windows_status(output: Result<CommandOutput, String>) -> (Seq<char>, bool, Seq<char>) {
    match output {
        Ok(out) => (
            "status"@,
            out.success,
            if out.stdout@.len() > 0 {
                out.stdout@
            } else {
                out.stderr@
            },
        ),
        Err(e) => ("status"@, false, "failed to query service: "@ + e@),
    }
}

/// The Windows service status (see `windows_status`).
pub fn windows_status_result(output: Result<CommandOutput, String>) -> (r: ServiceActionResult)
    ensures
        result_view(r) == windows_status(output),
{
    match output {
        Ok(out) => {
            let text = if out.stdout.as_str().unicode_len() > 0 {
                out.stdout
            } else {
                out.stderr
            };
            action_result("status", out.success, text)
        },
        Err(e) => action_result("status", false, concat2("failed to query service: ", e.as_str())),
    }
}

/// The install root of the Windows service, trimmed; a blank root is refused.
pub fn windows_install_root(install_root: &str) -> (r: Result<String, String>)
    ensures
        is_blank_seq(install_root@) ==> (r matches Err(e) && e@
            == "windows service install requires an install_root"@),
        !is_blank_seq(install_root@) ==> (r matches Ok(root) && root@ == trim_seq(install_root@)),
{
    let root = trim(install_root);
    if root.as_str().unicode_len() == 0 {
        Err(owned("windows service install requires an install_root"))
    } else {
        Ok(root)
    }
}

/// The `sc create` command for the service binary at `executable`: started automatically,
/// run as `"<executable>" service-host`, under its display name.
pub open spec fn sc_create_command(executable: Seq<char>) -> Seq<Seq<char>> {
    seq![
        "sc"@,
        "create"@,
        WINDOWS_SERVICE_NAME@,
        "binPath="@,
        "\""@ + executable + "\" service-host"@,
        "start="@,
        "auto"@,
        "DisplayName="@,
        "Remote Terminal Cloud Agent"@,
    ]
}

fn windows_create_service_command(executable: &str) -> (r: Vec<String>)
    ensures
        strings_view(r@) == sc_create_command(executable@),
{
    let mut v: Vec<String> = Vec::new();
    v.push(owned("sc"));
    v.push(owned("create"));
    v.push(owned(WINDOWS_SERVICE_NAME));
    v.push(owned("binPath="));
    v.push(concat3("\"", executable, "\" service-host"));
    v.push(owned("start="));
    v.push(owned("auto"));
    v.push(owned("DisplayName="));
    v.push(owned("Remote Terminal Cloud Agent"));
    assert(strings_view(v@) =~= sc_create_command(executable@));
    v
}

/// How Windows results describe each action once done; an install also names the root
/// it was installed from.
pub open spec fn windows_outcome(a: ServiceAction, root: Seq<char>) -> Seq<char> {
    match a {
        ServiceAction::Install => "installed and started from "@ + root,
        ServiceAction::Uninstall => "uninstalled"@,
        ServiceAction::Start => "started"@,
        ServiceAction::Stop => "stopped"@,
        ServiceAction::Restart => "restarted"@,
    }
}

/// The result of a successful Windows service action, such as
/// `service 'RemoteTerminalCloudAgent' started`; `root` is the (trimmed) install root,
/// named by an install only.
pub fn windows_action_result(action: ServiceAction, root: &str) -> (r: ServiceActionResult)
    ensures
        r.action@ == action_name(action),
        r.ok,
        r.message@ == "service '"@ + WINDOWS_SERVICE_NAME@ + "' "@ + windows_outcome(action, root@),
{
    let mut m = concat3("service '", WINDOWS_SERVICE_NAME, "' ");
    match action {
        ServiceAction::Install => {
            m.append("installed and started from ");
            m.append(root);
        },
        ServiceAction::Uninstall => m.append("uninstalled"),
        ServiceAction::Start => m.append("started"),
        ServiceAction::Stop => m.append("stopped"),
        ServiceAction::Restart => m.append("restarted"),
    }
    action_result(action.as_str(), true, m)
}

/// How a step of a service action ended: it succeeded, it ran and failed, or it could not
/// be carried out at all (with the error).
#[derive(Debug, Clone)]
pub enum CommandStatus {
    Succeeded,
    Failed,
    NotStarted(String),
}

/// The next thing to do for a service action.
#[derive(Debug)]
pub enum ServiceStep {
    /// Run this command (the program, then its arguments) and report how it ended.
    Run(Vec<String>),
    /// Pause for this many seconds.
    Sleep(u64),
    /// Write this launchd definition to `MACOS_PLIST_PATH`, creating its directory.
    WritePlist(String),
    /// Remove `MACOS_PLIST_PATH` if it exists.
    RemovePlist,
    /// Save this registration token into the configuration file.
    PersistToken(String),
    /// The action is over, with this result or error.
    Finished(Result<ServiceActionResult, String>),
}

/// The mathematical content of a step.
pub enum StepView {
    Run(Seq<Seq<char>>),
    Sleep(u64),
    WritePlist(Seq<char>),
    RemovePlist,
    PersistToken(Seq<char>),
    Finished(Result<(Seq<char>, bool, Seq<char>), Seq<char>>),
}

/// A result as its action, success and message.
pub open spec fn result_view(r: ServiceActionResult) -> (Seq<char>, bool, Seq<char>) {
    (r.action@, r.ok, r.message@)
}

/// The view of a step.
pub open spec fn step_view(s: ServiceStep) -> StepView {
    match s {
        ServiceStep::Run(c) => StepView::Run(strings_view(c@)),
        ServiceStep::Sleep(n) => StepView::Sleep(n),
        ServiceStep::WritePlist(p) => StepView::WritePlist(p@),
        ServiceStep::RemovePlist => StepView::RemovePlist,
        ServiceStep::PersistToken(t) => StepView::PersistToken(t@),
        ServiceStep::Finished(Ok(r)) => StepView::Finished(Ok(result_view(r))),
        ServiceStep::Finished(Err(e)) => StepView::Finished(Err(e@)),
    }
}

/// A finished action that failed with `e`.
pub open spec fn failed(e: Seq<char>) -> StepView {
    StepView::Finished(Err(e))
}

/// A finished action that succeeded with the given result.
pub open spec fn succeeded(action: Seq<char>, message: Seq<char>) -> StepView {
    StepView::Finished(Ok((action, true, message)))
}

/// The launchd name of the service as `launchctl` addresses it.
pub open spec fn launchd_target() -> Seq<char> {
    "system/"@ + MACOS_SERVICE_LABEL@
}

/// `systemctl start|stop|restart`: refused without `systemctl`; otherwise run it, and
/// report a failure to run, an unsuccessful exit, or the result.
pub open spec fn systemctl_plan(available: bool, action: Seq<char>, done: Seq<CommandStatus>) -> StepView {
    if !available {
        failed("systemctl is not available on this host"@)
    } else if done.len() == 0 {
        StepView::Run(seq!["systemctl"@, action, LINUX_SYSTEMD_SERVICE_NAME@])
    } else {
        match done[0] {
            CommandStatus::NotStarted(_) => failed("failed to "@ + action + " Linux service"@),
            CommandStatus::Failed => failed(
                "systemctl "@ + action + " "@ + LINUX_SYSTEMD_SERVICE_NAME@ + " failed"@,
            ),
            CommandStatus::Succeeded => succeeded(
                action,
                "systemd service '"@ + LINUX_SYSTEMD_SERVICE_NAME@ + "' "@ + action + "ed"@,
            ),
        }
    }
}

/// A single `launchctl` command whose success completes the action: a failure to run it
/// and an unsuccessful exit are reported with the given messages.
pub open spec fn launchctl_plan(
    args: Seq<Seq<char>>,
    not_started: Seq<char>,
    unsuccessful: Seq<char>,
    action: ServiceAction,
    done: Seq<CommandStatus>,
) -> StepView {
    if done.len() == 0 {
        StepView::Run(seq!["launchctl"@] + args)
    } else {
        match done[0] {
            CommandStatus::NotStarted(_) => failed(not_started),
            CommandStatus::Failed => failed(unsuccessful),
            CommandStatus::Succeeded => succeeded(
                action_name(action),
                "launchd service '"@ + MACOS_SERVICE_LABEL@ + "' "@ + launchd_outcome(action),
            ),
        }
    }
}

/// A single `sc` command whose success completes the action.
pub open spec fn sc_plan(
    verb: Seq<char>,
    not_started: Seq<char>,
    unsuccessful: Seq<char>,
    action: ServiceAction,
    done: Seq<CommandStatus>,
) -> StepView {
    if done.len() == 0 {
        StepView::Run(seq!["sc"@, verb, WINDOWS_SERVICE_NAME@])
    } else {
        match done[0] {
            CommandStatus::NotStarted(_) => failed(not_started),
            CommandStatus::Failed => failed(unsuccessful),
            CommandStatus::Succeeded => succeeded(
                action_name(action),
                "service '"@ + WINDOWS_SERVICE_NAME@ + "' "@ + windows_outcome(action, Seq::empty()),
            ),
        }
    }
}

/// Starting the service: `systemctl start` on Linux, `launchctl kickstart -k` on macOS,
/// `sc start` on Windows.
pub open spec fn start_plan(platform: PlatformId, systemctl_available: bool, done: Seq<CommandStatus>) -> StepView {
    match platform {
        PlatformId::Linux => systemctl_plan(systemctl_available, "start"@, done),
        PlatformId::Macos => launchctl_plan(
            seq!["kickstart"@, "-k"@, launchd_target()],
            "failed to execute launchctl kickstart"@,
            "launchctl kickstart failed"@,
            ServiceAction::Start,
            done,
        ),
        PlatformId::Windows => sc_plan(
            "start"@,
            "failed to start service"@,
            "sc start failed"@,
            ServiceAction::Start,
            done,
        ),
    }
}

/// Stopping the service: `systemctl stop` on Linux, `launchctl disable` on macOS, `sc stop`
/// on Windows.
pub open spec fn stop_plan(platform: PlatformId, systemctl_available: bool, done: Seq<CommandStatus>) -> StepView {
    match platform {
        PlatformId::Linux => systemctl_plan(systemctl_available, "stop"@, done),
        PlatformId::Macos => launchctl_plan(
            seq!["disable"@, launchd_target()],
            "failed to execute launchctl disable"@,
            "launchctl disable failed"@,
            ServiceAction::Stop,
            done,
        ),
        PlatformId::Windows => sc_plan(
            "stop"@,
            "failed to stop service"@,
            "sc stop failed"@,
            ServiceAction::Stop,
            done,
        ),
    }
}

/// Restarting the service: `systemctl restart` on Linux, `launchctl kickstart -k` on macOS;
/// on Windows `sc stop` (however it ends), a pause of two seconds, then `sc start`, whose
/// exit status is not checked.
pub open spec fn restart_plan(platform: PlatformId, systemctl_available: bool, done: Seq<CommandStatus>) -> StepView {
    match platform {
        PlatformId::Linux => systemctl_plan(systemctl_available, "restart"@, done),
        PlatformId::Macos => launchctl_plan(
            seq!["kickstart"@, "-k"@, launchd_target()],
            "failed to execute launchctl kickstart"@,
            "launchctl kickstart failed"@,
            ServiceAction::Restart,
            done,
        ),
        PlatformId::Windows => if done.len() == 0 {
            StepView::Run(seq!["sc"@, "stop"@, WINDOWS_SERVICE_NAME@])
        } else if done.len() == 1 {
            StepView::Sleep(2)
        } else if done.len() == 2 {
            StepView::Run(seq!["sc"@, "start"@, WINDOWS_SERVICE_NAME@])
        } else {
            match done[2] {
                CommandStatus::NotStarted(_) => failed("failed to restart service"@),
                _ => succeeded(
                    "restart"@,
                    "service '"@ + WINDOWS_SERVICE_NAME@ + "' "@ + windows_outcome(
                        ServiceAction::Restart,
                        Seq::empty(),
                    ),
                ),
            }
        },
    }
}

/// Removing the service: on Linux `systemctl disable --now` (however it ends; refused
/// without `systemctl`); on macOS `launchctl bootout`, then the definition file is removed
/// (an error removing it is reported, and a failure to run `launchctl` after that);
/// on Windows `sc stop` (however it ends), then `sc delete`.
pub open spec fn uninstall_plan(platform: PlatformId, systemctl_available: bool, done: Seq<CommandStatus>) -> StepView {
    match platform {
        PlatformId::Linux => if !systemctl_available {
            failed("systemctl is required to uninstall the Linux service"@)
        } else if done.len() == 0 {
            StepView::Run(seq!["systemctl"@, "disable"@, "--now"@, LINUX_SYSTEMD_SERVICE_NAME@])
        } else {
            succeeded("uninstall"@, "systemd service '"@ + LINUX_SYSTEMD_SERVICE_NAME@ + "' disabled"@)
        },
        PlatformId::Macos => if done.len() == 0 {
            StepView::Run(seq!["launchctl"@, "bootout"@, "system"@, MACOS_PLIST_PATH@])
        } else if done.len() == 1 {
            StepView::RemovePlist
        } else {
            match done[1] {
                CommandStatus::NotStarted(io) => failed(io@),
                _ => match done[0] {
                    CommandStatus::NotStarted(e) => failed("failed to unload launchd service: "@ + e@),
                    _ => succeeded(
                        "uninstall"@,
                        "launchd service '"@ + MACOS_SERVICE_LABEL@ + "' "@ + launchd_outcome(
                            ServiceAction::Uninstall,
                        ),
                    ),
                },
            }
        },
        PlatformId::Windows => if done.len() == 0 {
            StepView::Run(seq!["sc"@, "stop"@, WINDOWS_SERVICE_NAME@])
        } else if done.len() == 1 {
            StepView::Run(seq!["sc"@, "delete"@, WINDOWS_SERVICE_NAME@])
        } else {
            match done[1] {
                CommandStatus::NotStarted(_) => failed("failed to delete service"@),
                _ => succeeded(
                    "uninstall"@,
                    "service '"@ + WINDOWS_SERVICE_NAME@ + "' "@ + windows_outcome(
                        ServiceAction::Uninstall,
                        Seq::empty(),
                    ),
                ),
            }
        },
    }
}

fn command_of(parts: &[&str]) -> (r: Vec<String>)
    ensures
        strings_view(r@) == parts@.map_values(|s: &str| s@),
{
    let mut v: Vec<String> = Vec::new();
    let mut i: usize = 0;
    while i < parts.len()
        invariant
            i <= parts@.len(),
            strings_view(v@) =~= parts@.take(i as int).map_values(|s: &str| s@),
        decreases parts@.len() - i,
    {
        let s = owned(parts[i]);
        let ghost before = v@;
        v.push(s);
        assert(strings_view(v@) =~= strings_view(before).push(s@));
        assert(parts@.take(i + 1) =~= parts@.take(i as int).push(parts@[i as int]));
        i = i + 1;
    }
    assert(parts@.take(parts@.len() as int) =~= parts@);
    v
}

fn run_step(parts: &[&str]) -> (r: ServiceStep)
    ensures
        step_view(r) == StepView::Run(parts@.map_values(|s: &str| s@)),
{
    ServiceStep::Run(command_of(parts))
}

fn fail_step(message: String) -> (r: ServiceStep)
    ensures
        step_view(r) == failed(message@),
{
    ServiceStep::Finished(Err(message))
}

fn done_step(result: ServiceActionResult) -> (r: ServiceStep)
    ensures
        step_view(r) == StepView::Finished(Ok(result_view(result))),
{
    ServiceStep::Finished(Ok(result))
}

fn launchd_target_text() -> (r: String)
    ensures
        r@ == launchd_target(),
{
    concat2("system/", MACOS_SERVICE_LABEL)
}

fn systemctl_step(available: bool, action: &str, done: &[CommandStatus]) -> (r: ServiceStep)
    ensures
        step_view(r) == systemctl_plan(available, action@, done@),
{
    if !available {
        return fail_step(owned("systemctl is not available on this host"));
    }
    if done.len() == 0 {
        let r = run_step(&["systemctl", action, LINUX_SYSTEMD_SERVICE_NAME]);
        assert(seq!["systemctl", action, LINUX_SYSTEMD_SERVICE_NAME].map_values(|s: &str| s@) =~= seq![
            "systemctl"@,
            action@,
            LINUX_SYSTEMD_SERVICE_NAME@,
        ]);
        return r;
    }
    match &done[0] {
        CommandStatus::NotStarted(_) => fail_step(concat3("failed to ", action, " Linux service")),
        CommandStatus::Failed => {
            let mut m = concat3("systemctl ", action, " ");
            m.append(LINUX_SYSTEMD_SERVICE_NAME);
            m.append(" failed");
            fail_step(m)
        },
        CommandStatus::Succeeded => done_step(systemctl_action_result(action)),
    }
}

fn launchctl_step(
    args: &[&str],
    not_started: &str,
    unsuccessful: &str,
    action: ServiceAction,
    done: &[CommandStatus],
) -> (r: ServiceStep)
    ensures
        step_view(r) == launchctl_plan(
            args@.map_values(|s: &str| s@),
            not_started@,
            unsuccessful@,
            action,
            done@,
        ),
{
    if done.len() == 0 {
        let mut v: Vec<String> = Vec::new();
        v.push(owned("launchctl"));
        let mut i: usize = 0;
        while i < args.len()
            invariant
                i <= args@.len(),
                strings_view(v@) =~= seq!["launchctl"@] + args@.take(i as int).map_values(|s: &str| s@),
            decreases args@.len() - i,
        {
            let s = owned(args[i]);
            let ghost before = v@;
            v.push(s);
            assert(strings_view(v@) =~= strings_view(before).push(s@));
            assert(args@.take(i + 1) =~= args@.take(i as int).push(args@[i as int]));
            i = i + 1;
        }
        assert(args@.take(args@.len() as int) =~= args@);
        return ServiceStep::Run(v);
    }
    match &done[0] {
        CommandStatus::NotStarted(_) => fail_step(owned(not_started)),
        CommandStatus::Failed => fail_step(owned(unsuccessful)),
        CommandStatus::Succeeded => done_step(launchd_action_result(action)),
    }
}

fn sc_step(
    verb: &str,
    not_started: &str,
    unsuccessful: &str,
    action: ServiceAction,
    done: &[CommandStatus],
) -> (r: ServiceStep)
    requires
        !(action is Install),
    ensures
        step_view(r) == sc_plan(verb@, not_started@, unsuccessful@, action, done@),
{
    if done.len() == 0 {
        let r = run_step(&["sc", verb, WINDOWS_SERVICE_NAME]);
        assert(seq!["sc", verb, WINDOWS_SERVICE_NAME].map_values(|s: &str| s@) =~= seq![
            "sc"@,
            verb@,
            WINDOWS_SERVICE_NAME@,
        ]);
        return r;
    }
    match &done[0] {
        CommandStatus::NotStarted(_) => fail_step(owned(not_started)),
        CommandStatus::Failed => fail_step(owned(unsuccessful)),
        CommandStatus::Succeeded => done_step(windows_action_result(action, "")),
    }
}

/// The next step in starting the service, given how the steps so far ended (see
/// `start_plan`); `systemctl_available` matters on Linux only.
pub fn start_service(platform: PlatformId, systemctl_available: bool, done: &[CommandStatus]) -> (r:
    ServiceStep)
    ensures
        step_view(r) == start_plan(platform, systemctl_available, done@),
{
    match platform {
        PlatformId::Linux => systemctl_step(systemctl_available, "start", done),
        PlatformId::Macos => {
            let target = launchd_target_text();
            let t = target.as_str();
            let r = launchctl_step(
                &["kickstart", "-k", t],
                "failed to execute launchctl kickstart",
                "launchctl kickstart failed",
                ServiceAction::Start,
                done,
            );
            assert(seq!["kickstart", "-k", t].map_values(|s: &str| s@) =~= seq![
                "kickstart"@,
                "-k"@,
                launchd_target(),
            ]);
            r
        },
        PlatformId::Windows => sc_step(
            "start",
            "failed to start service",
            "sc start failed",
            ServiceAction::Start,
            done,
        ),
    }
}

/// The next step in stopping the service (see `stop_plan`).
pub fn stop_service(platform: PlatformId, systemctl_available: bool, done: &[CommandStatus]) -> (r:
    ServiceStep)
    ensures
        step_view(r) == stop_plan(platform, systemctl_available, done@),
{
    match platform {
        PlatformId::Linux => systemctl_step(systemctl_available, "stop", done),
        PlatformId::Macos => {
            let target = launchd_target_text();
            let t = target.as_str();
            let r = launchctl_step(
                &["disable", t],
                "failed to execute launchctl disable",
                "launchctl disable failed",
                ServiceAction::Stop,
                done,
            );
            assert(seq!["disable", t].map_values(|s: &str| s@) =~= seq![
                "disable"@,
                launchd_target(),
            ]);
            r
        },
        PlatformId::Windows => sc_step(
            "stop",
            "failed to stop service",
            "sc stop failed",
            ServiceAction::Stop,
            done,
        ),
    }
}

/// The next step in restarting the service (see `restart_plan`).
pub fn restart_service(platform: PlatformId, systemctl_available: bool, done: &[CommandStatus]) -> (r:
    ServiceStep)
    ensures
        step_view(r) == restart_plan(platform, systemctl_available, done@),
{
    match platform {
        PlatformId::Linux => systemctl_step(systemctl_available, "restart", done),
        PlatformId::Macos => {
            let target = launchd_target_text();
            let t = target.as_str();
            let r = launchctl_step(
                &["kickstart", "-k", t],
                "failed to execute launchctl kickstart",
                "launchctl kickstart failed",
                ServiceAction::Restart,
                done,
            );
            assert(seq!["kickstart", "-k", t].map_values(|s: &str| s@) =~= seq![
                "kickstart"@,
                "-k"@,
                launchd_target(),
            ]);
            r
        },
        PlatformId::Windows => {
            if done.len() == 0 {
                let r = run_step(&["sc", "stop", WINDOWS_SERVICE_NAME]);
                assert(seq!["sc", "stop", WINDOWS_SERVICE_NAME].map_values(|s: &str| s@) =~= seq![
                    "sc"@,
                    "stop"@,
                    WINDOWS_SERVICE_NAME@,
                ]);
                r
            } else if done.len() == 1 {
                ServiceStep::Sleep(2)
            } else if done.len() == 2 {
                let r = run_step(&["sc", "start", WINDOWS_SERVICE_NAME]);
                assert(seq!["sc", "start", WINDOWS_SERVICE_NAME].map_values(|s: &str| s@) =~= seq![
                    "sc"@,
                    "start"@,
                    WINDOWS_SERVICE_NAME@,
                ]);
                r
            } else {
                match &done[2] {
                    CommandStatus::NotStarted(_) => fail_step(owned("failed to restart service")),
                    _ => done_step(windows_action_result(ServiceAction::Restart, "")),
                }
            }
        },
    }
}

/// The next step in removing the service (see `uninstall_plan`).
pub fn uninstall_service(platform: PlatformId, systemctl_available: bool, done: &[CommandStatus]) -> (r:
    ServiceStep)
    ensures
        step_view(r) == uninstall_plan(platform, systemctl_available, done@),
{
    match platform {
        PlatformId::Linux => {
            if !systemctl_available {
                return fail_step(owned("systemctl is required to uninstall the Linux service"));
            }
            if done.len() == 0 {
                let r = run_step(&["systemctl", "disable", "--now", LINUX_SYSTEMD_SERVICE_NAME]);
                assert(seq!["systemctl", "disable", "--now", LINUX_SYSTEMD_SERVICE_NAME].map_values(
                    |s: &str| s@,
                ) =~= seq!["systemctl"@, "disable"@, "--now"@, LINUX_SYSTEMD_SERVICE_NAME@]);
                return r;
            }
            done_step(linux_uninstall_result())
        },
        PlatformId::Macos => {
            if done.len() == 0 {
                let r = run_step(&["launchctl", "bootout", "system", MACOS_PLIST_PATH]);
                assert(seq!["launchctl", "bootout", "system", MACOS_PLIST_PATH].map_values(
                    |s: &str| s@,
                ) =~= seq!["launchctl"@, "bootout"@, "system"@, MACOS_PLIST_PATH@]);
                return r;
            }
            if done.len() == 1 {
                return ServiceStep::RemovePlist;
            }
            match &done[1] {
                CommandStatus::NotStarted(io) => fail_step(owned(io.as_str())),
                _ => match &done[0] {
                    CommandStatus::NotStarted(e) => fail_step(
                        concat2("failed to unload launchd service: ", e.as_str()),
                    ),
                    _ => done_step(launchd_action_result(ServiceAction::Uninstall)),
                },
            }
        },
        PlatformId::Windows => {
            if done.len() == 0 {
                let r = run_step(&["sc", "stop", WINDOWS_SERVICE_NAME]);
                assert(seq!["sc", "stop", WINDOWS_SERVICE_NAME].map_values(|s: &str| s@) =~= seq![
                    "sc"@,
                    "stop"@,
                    WINDOWS_SERVICE_NAME@,
                ]);
                return r;
            }
            if done.len() == 1 {
                let r = run_step(&["sc", "delete", WINDOWS_SERVICE_NAME]);
                assert(seq!["sc", "delete", WINDOWS_SERVICE_NAME].map_values(|s: &str| s@) =~= seq![
                    "sc"@,
                    "delete"@,
                    WINDOWS_SERVICE_NAME@,
                ]);
                return r;
            }
            match &done[1] {
                CommandStatus::NotStarted(_) => fail_step(owned("failed to delete service")),
                _ => done_step(windows_action_result(ServiceAction::Uninstall, "")),
            }
        },
    }
}

/// What an install needs besides the platform: the install root as given, the
/// registration token given with it (Windows), the definition file shipped in the install
/// root if there is one (macOS), and the path of `rtc-agentd.exe` in the trimmed install root
/// (Windows).
#[derive(Debug, Clone)]
pub struct InstallRequest {
    pub install_root: String,
    pub registration_token: Option<String>,
    pub plist_template: Option<String>,
    pub service_executable: String,
}

/// A token given for an install, trimmed, when it is not blank.
pub open spec fn install_token(token: Option<String>) -> Option<Seq<char>> {
    match token {
        Some(t) => if is_blank_seq(t@) {
            None
        } else {
            Some(trim_seq(t@))
        },
        None => None,
    }
}

/// Installing the service. On Linux (refused without `systemctl` or with a blank root):
/// `systemctl daemon-reload`, then `systemctl enable --now`, each failure reported. On
/// macOS: the shipped definition (or `launchd_plist` of the root) is written, then
/// `launchctl bootstrap` is run (only a failure to run it is reported). On Windows (refused
/// with a blank root): `sc create`; with a token that is not blank the token is saved and
/// `sc config` makes the service run as LocalSystem; then `sc start` (only failures to run
/// are reported after `sc create`).
pub open spec fn install_plan(
    platform: PlatformId,
    request: InstallRequest,
    systemctl_available: bool,
    done: Seq<CommandStatus>,
) -> StepView {
    let root = trim_seq(request.install_root@);
    match platform {
        PlatformId::Linux => if !systemctl_available {
            failed("systemctl is required to install the Linux service"@)
        } else if root.len() == 0 {
            failed("linux service install requires an install_root"@)
        } else if done.len() == 0 {
            StepView::Run(seq!["systemctl"@, "daemon-reload"@])
        } else {
            match done[0] {
                CommandStatus::NotStarted(_) => failed("failed to reload systemd"@),
                CommandStatus::Failed => failed("systemctl daemon-reload failed"@),
                CommandStatus::Succeeded => if done.len() == 1 {
                    StepView::Run(seq!["systemctl"@, "enable"@, "--now"@, LINUX_SYSTEMD_SERVICE_NAME@])
                } else {
                    match done[1] {
                        CommandStatus::NotStarted(_) => failed("failed to enable Linux service"@),
                        CommandStatus::Failed => failed(
                            "systemctl enable --now failed for "@ + LINUX_SYSTEMD_SERVICE_NAME@,
                        ),
                        CommandStatus::Succeeded => succeeded(
                            "install"@,
                            "systemd service '"@ + LINUX_SYSTEMD_SERVICE_NAME@
                                + "' enabled and started for install root "@ + root,
                        ),
                    }
                },
            }
        },
        PlatformId::Macos => if done.len() == 0 {
            StepView::WritePlist(
                match request.plist_template {
                    Some(t) => t@,
                    None => launchd_plist(request.install_root@),
                },
            )
        } else {
            match done[0] {
                CommandStatus::NotStarted(e) => failed(e@),
                _ => if done.len() == 1 {
                    StepView::Run(seq!["launchctl"@, "bootstrap"@, "system"@, MACOS_PLIST_PATH@])
                } else {
                    match done[1] {
                        CommandStatus::NotStarted(_) => failed("failed to execute launchctl bootstrap"@),
                        _ => succeeded(
                            "install"@,
                            "launchd service '"@ + MACOS_SERVICE_LABEL@ + "' "@ + launchd_outcome(
                                ServiceAction::Install,
                            ),
                        ),
                    }
                },
            }
        },
        PlatformId::Windows => {
            let installed = succeeded(
                "install"@,
                "service '"@ + WINDOWS_SERVICE_NAME@ + "' "@ + windows_outcome(
                    ServiceAction::Install,
                    root,
                ),
            );
            let start = seq!["sc"@, "start"@, WINDOWS_SERVICE_NAME@];
            if root.len() == 0 {
                failed("windows service install requires an install_root"@)
            } else if done.len() == 0 {
                StepView::Run(sc_create_command(request.service_executable@))
            } else {
                match done[0] {
                    CommandStatus::NotStarted(_) => failed("failed to create service"@),
                    CommandStatus::Failed => failed("sc create failed"@),
                    CommandStatus::Succeeded => match install_token(request.registration_token) {
                        Some(t) => if done.len() == 1 {
                            StepView::PersistToken(t)
                        } else if done[1] is NotStarted {
                            failed(done[1]->NotStarted_0@)
                        } else if done.len() == 2 {
                            StepView::Run(
                                seq!["sc"@, "config"@, WINDOWS_SERVICE_NAME@, "obj="@, "LocalSystem"@],
                            )
                        } else if done[2] is NotStarted {
                            failed("failed to configure service"@)
                        } else if done.len() == 3 {
                            StepView::Run(start)
                        } else if done[3] is NotStarted {
                            failed("failed to start service"@)
                        } else {
                            installed
                        },
                        None => if done.len() == 1 {
                            StepView::Run(start)
                        } else if done[1] is NotStarted {
                            failed("failed to start service"@)
                        } else {
                            installed
                        },
                    },
                }
            }
        },
    }
}

/// The next step in installing the service, given how the steps so far ended (see
/// `install_plan`).
pub fn install_service(
    platform: PlatformId,
    request: &InstallRequest,
    systemctl_available: bool,
    done: &[CommandStatus],
) -> (r: ServiceStep)
    ensures
        step_view(r) == install_plan(platform, *request, systemctl_available, done@),
{
    let root = trim(request.install_root.as_str());
    let blank = root.as_str().unicode_len() == 0;
    match platform {
        PlatformId::Linux => {
            if !systemctl_available {
                return fail_step(owned("systemctl is required to install the Linux service"));
            }
            if blank {
                return fail_step(owned("linux service install requires an install_root"));
            }
            if done.len() == 0 {
                let r = run_step(&["systemctl", "daemon-reload"]);
                assert(seq!["systemctl", "daemon-reload"].map_values(|s: &str| s@) =~= seq![
                    "systemctl"@,
                    "daemon-reload"@,
                ]);
                return r;
            }
            match &done[0] {
                CommandStatus::NotStarted(_) => fail_step(owned("failed to reload systemd")),
                CommandStatus::Failed => fail_step(owned("systemctl daemon-reload failed")),
                CommandStatus::Succeeded => {
                    if done.len() == 1 {
                        let r = run_step(&["systemctl", "enable", "--now", LINUX_SYSTEMD_SERVICE_NAME]);
                        assert(seq!["systemctl", "enable", "--now", LINUX_SYSTEMD_SERVICE_NAME].map_values(
                            |s: &str| s@,
                        ) =~= seq!["systemctl"@, "enable"@, "--now"@, LINUX_SYSTEMD_SERVICE_NAME@]);
                        return r;
                    }
                    match &done[1] {
                        CommandStatus::NotStarted(_) => fail_step(owned("failed to enable Linux service")),
                        CommandStatus::Failed => fail_step(
                            concat2("systemctl enable --now failed for ", LINUX_SYSTEMD_SERVICE_NAME),
                        ),
                        CommandStatus::Succeeded => done_step(linux_install_result(root.as_str())),
                    }
                },
            }
        },
        PlatformId::Macos => {
            if done.len() == 0 {
                let content = match &request.plist_template {
                    Some(t) => owned(t.as_str()),
                    None => generate_launchd_plist(request.install_root.as_str()),
                };
                return ServiceStep::WritePlist(content);
            }
            match &done[0] {
                CommandStatus::NotStarted(e) => fail_step(owned(e.as_str())),
                _ => {
                    if done.len() == 1 {
                        let r = run_step(&["launchctl", "bootstrap", "system", MACOS_PLIST_PATH]);
                        assert(seq!["launchctl", "bootstrap", "system", MACOS_PLIST_PATH].map_values(
                            |s: &str| s@,
                        ) =~= seq!["launchctl"@, "bootstrap"@, "system"@, MACOS_PLIST_PATH@]);
                        return r;
                    }
                    match &done[1] {
                        CommandStatus::NotStarted(_) => fail_step(
                            owned("failed to execute launchctl bootstrap"),
                        ),
                        _ => done_step(launchd_action_result(ServiceAction::Install)),
                    }
                },
            }
        },
        PlatformId::Windows => {
            if blank {
                return fail_step(owned("windows service install requires an install_root"));
            }
            if done.len() == 0 {
                return ServiceStep::Run(
                    windows_create_service_command(request.service_executable.as_str()),
                );
            }
            match &done[0] {
                CommandStatus::NotStarted(_) => fail_step(owned("failed to create service")),
                CommandStatus::Failed => fail_step(owned("sc create failed")),
                CommandStatus::Succeeded => {
                    let token = match &request.registration_token {
                        Some(t) => if is_blank(t.as_str()) {
                            None
                        } else {
                            Some(trim(t.as_str()))
                        },
                        None => None,
                    };
                    let start_index: usize = match &token {
                        Some(_) => 3,
                        None => 1,
                    };
                    if let Some(t) = token {
                        if done.len() == 1 {
                            return ServiceStep::PersistToken(t);
                        }
                        if let CommandStatus::NotStarted(e) = &done[1] {
                            return fail_step(owned(e.as_str()));
                        }
                        if done.len() == 2 {
                            let r = run_step(&["sc", "config", WINDOWS_SERVICE_NAME, "obj=", "LocalSystem"]);
                            assert(seq!["sc", "config", WINDOWS_SERVICE_NAME, "obj=", "LocalSystem"].map_values(
                                |s: &str| s@,
                            ) =~= seq!["sc"@, "config"@, WINDOWS_SERVICE_NAME@, "obj="@, "LocalSystem"@]);
                            return r;
                        }
                        if let CommandStatus::NotStarted(_) = &done[2] {
                            return fail_step(owned("failed to configure service"));
                        }
                    }
                    if done.len() == start_index {
                        let r = run_step(&["sc", "start", WINDOWS_SERVICE_NAME]);
                        assert(seq!["sc", "start", WINDOWS_SERVICE_NAME].map_values(|s: &str| s@) =~= seq![
                            "sc"@,
                            "start"@,
                            WINDOWS_SERVICE_NAME@,
                        ]);
                        return r;
                    }
                    if let CommandStatus::NotStarted(_) = &done[start_index] {
                        return fail_step(owned("failed to start service"));
                    }
                    done_step(windows_action_result(ServiceAction::Install, root.as_str()))
                },
            }
        },
    }
}

/// The command that reports the state of the service: `systemctl status` on Linux,
/// `launchctl print` on macOS, `sc query` on Windows.
pub open spec fn status_command(platform: PlatformId) -> Seq<Seq<char>> {
    match platform {
        PlatformId::Linux => seq![
            "systemctl"@,
            "status"@,
            LINUX_SYSTEMD_SERVICE_NAME@,
            "--no-pager"@,
            "--full"@,
        ],
        PlatformId::Macos => seq!["launchctl"@, "print"@, launchd_target()],
        PlatformId::Windows => seq!["sc"@, "query"@, WINDOWS_SERVICE_NAME@],
    }
}

/// The command to run for the service's status (see `status_command`).
pub fn service_status_command(platform: PlatformId) -> (r: Vec<String>)
    ensures
        strings_view(r@) == status_command(platform),
{
    match platform {
        PlatformId::Linux => {
            let r = command_of(&["systemctl", "status", LINUX_SYSTEMD_SERVICE_NAME, "--no-pager", "--full"]);
            assert(seq!["systemctl", "status", LINUX_SYSTEMD_SERVICE_NAME, "--no-pager", "--full"].map_values(
                |s: &str| s@,
            ) =~= seq!["systemctl"@, "status"@, LINUX_SYSTEMD_SERVICE_NAME@, "--no-pager"@, "--full"@]);
            r
        },
        PlatformId::Macos => {
            let target = launchd_target_text();
            let t = target.as_str();
            let r = command_of(&["launchctl", "print", t]);
            assert(seq!["launchctl", "print", t].map_values(|s: &str| s@) =~= seq![
                "launchctl"@,
                "print"@,
                launchd_target(),
            ]);
            r
        },
        PlatformId::Windows => {
            let r = command_of(&["sc", "query", WINDOWS_SERVICE_NAME]);
            assert(seq!["sc", "query", WINDOWS_SERVICE_NAME].map_values(|s: &str| s@) =~= seq![
                "sc"@,
                "query"@,
                WINDOWS_SERVICE_NAME@,
            ]);
            r
        },
    }
}

/// The status of the service from what the status command printed (or the error that kept
/// it from running): see `systemd_status_result`, `launchd_status_result` and
/// `windows_status_result`; `systemctl_available` matters on Linux only.
pub fn service_status(platform: PlatformId, systemctl_available: bool, output: Result<CommandOutput, String>) -> (r:
    ServiceActionResult)
    ensures
        platform == PlatformId::Linux ==> result_view(r) == systemd_status(systemctl_available, output),
        platform == PlatformId::Macos ==> result_view(r) == launchd_status(output),
        platform == PlatformId::Windows ==> result_view(r) == windows_status(output),
{
    match platform {
        PlatformId::Linux => systemd_status_result(systemctl_available, output),
        PlatformId::Macos => launchd_status_result(output),
        PlatformId::Windows => windows_status_result(output),
    }
}

/// The state of the Windows service from `sc query`: its stdout (or its stderr when stdout
/// is blank) read by `parse_sc_query_output`; unknown when the command could not run.
pub fn query_service_state(output: Result<CommandOutput, String>) -> (r: ServiceState)
    ensures
        match output {
            Ok(out) => {
                let text = if !is_blank_seq(out.stdout@) {
                    out.stdout@
                } else {
                    out.stderr@
                };
                match r {
                    ServiceState::Missing => reports_missing(text),
                    ServiceState::Stopped => !reports_missing(text) && reports_stopped(text),
                    ServiceState::Running => !reports_missing(text) && !reports_stopped(text)
                        && reports_running(text),
                    ServiceState::Unknown(s) => !reports_missing(text) && !reports_stopped(text)
                        && !reports_running(text) && s@ == trim_seq(text),
                }
            },
            Err(_) => (r matches ServiceState::Unknown(s) && s@ == "failed to query service"@),
        },
{
    match output {
        Ok(out) => if !is_blank(out.stdout.as_str()) {
            parse_sc_query_output(out.stdout.as_str())
        } else {
            parse_sc_query_output(out.stderr.as_str())
        },
        Err(_) => {
            proof {
                reveal_strlit("failed to query service");
            }
            ServiceState::Unknown(owned("failed to query service"))
        },
    }
}

/// Every service action ends: once as many steps as it can take have been reported (one
/// for a start or a stop, three for a Windows restart, two for an uninstall, four for an
/// install), the next step is its result.
pub proof fn lemma_service_actions_finish(
    platform: PlatformId,
    request: InstallRequest,
    systemctl_available: bool,
    done: Seq<CommandStatus>,
)
    ensures
        done.len() >= 1 ==> start_plan(platform, systemctl_available, done) is Finished,
        done.len() >= 1 ==> stop_plan(platform, systemctl_available, done) is Finished,
        done.len() >= 3 ==> restart_plan(platform, systemctl_available, done) is Finished,
        done.len() >= 2 ==> uninstall_plan(platform, systemctl_available, done) is Finished,
        done.len() >= 4 ==> install_plan(platform, request, systemctl_available, done) is Finished,
{
}

} // verus!
