//! The messages exchanged between the agent and the backend, and the host description
//! that the agent reports.
use vstd::prelude::*;

use crate::text::{is_white_space, str_eq, trim, trim_end_seq, trim_seq, trim_start_seq};

verus! {

/// The operating systems the agent runs on.
#[derive(Debug, Clone, Copy, PartialEq, Eq, Structural)]
pub enum PlatformId {
    Windows,
    Linux,
    Macos,
}

/// The shells a session can be started with.
#[derive(Debug, Clone, Copy, PartialEq, Eq, Hash, Structural)]
pub enum ShellType {
    SystemDefault,
    Cmd,
    Powershell,
    Pwsh,
    Bash,
    Zsh,
    Sh,
}

/// The wire name of each shell.
pub open spec fn shell_name(t: ShellType) -> Seq<char> {
    match t {
        ShellType::SystemDefault => "system-default"@,
        ShellType::Cmd => "cmd"@,
        ShellType::Powershell => "powershell"@,
        ShellType::Pwsh => "pwsh"@,
        ShellType::Bash => "bash"@,
        ShellType::Zsh => "zsh"@,
        ShellType::Sh => "sh"@,
    }
}

impl ShellType {
    /// The wire name of the shell, such as `system-default` or `bash`.
    pub fn as_str(self) -> (r: &'static str)
        ensures
            r@ == shell_name(self),
    {
        match self {
            ShellType::SystemDefault => "system-default",
            ShellType::Cmd => "cmd",
            ShellType::Powershell => "powershell",
            ShellType::Pwsh => "pwsh",
            ShellType::Bash => "bash",
            ShellType::Zsh => "zsh",
            ShellType::Sh => "sh",
        }
    }
}

/// The shell whose wire name is `s`, if any.
pub open spec fn shell_named(s: Seq<char>) -> Option<ShellType> {
    if s == "system-default"@ {
        Some(ShellType::SystemDefault)
    } else if s == "cmd"@ {
        Some(ShellType::Cmd)
    } else if s == "powershell"@ {
        Some(ShellType::Powershell)
    } else if s == "pwsh"@ {
        Some(ShellType::Pwsh)
    } else if s == "bash"@ {
        Some(ShellType::Bash)
    } else if s == "zsh"@ {
        Some(ShellType::Zsh)
    } else if s == "sh"@ {
        Some(ShellType::Sh)
    } else {
        None
    }
}

/// Parses a configured shell name; surrounding white space is ignored.
pub fn parse_shell_type(value: String) -> (r: Option<ShellType>)
    ensures
        r == shell_named(trim_seq(value@)),
{
    parse_shell_name(value.as_str())
}

/// Parses a shell name given as a string slice; surrounding white space is ignored.
pub fn parse_shell_name(value: &str) -> (r: Option<ShellType>)
    ensures
        r == shell_named(trim_seq(value@)),
{
    let t = trim(value);
    let s = t.as_str();
    if str_eq(s, "system-default") {
        Some(ShellType::SystemDefault)
    } else if str_eq(s, "cmd") {
        Some(ShellType::Cmd)
    } else if str_eq(s, "powershell") {
        Some(ShellType::Powershell)
    } else if str_eq(s, "pwsh") {
        Some(ShellType::Pwsh)
    } else if str_eq(s, "bash") {
        Some(ShellType::Bash)
    } else if str_eq(s, "zsh") {
        Some(ShellType::Zsh)
    } else if str_eq(s, "sh") {
        Some(ShellType::Sh)
    } else {
        None
    }
}

/// Feature flags the agent advertises to the backend.
#[derive(Debug, Clone, Copy, Default)]
pub struct AgentCapabilities {
    pub ssh_forward: bool,
    pub native_pty: bool,
    pub self_update: bool,
    pub proxy_aware: bool,
    pub service_managed: bool,
    pub session_recording: bool,
}

/// Outcome of the local SSH precheck.
#[derive(Debug, Clone, Default)]
pub struct SshCheck {
    pub available: bool,
    pub detail: String,
}

/// Diagnostic facts about the host.
#[derive(Debug, Clone, Default)]
pub struct HostDiagnostics {
    pub install_formats: Vec<String>,
    pub service_manager: String,
    pub default_log_path: String,
    pub available_shells: Vec<ShellType>,
    pub ssh_check: SshCheck,
    pub notes: Vec<String>,
}

/// What the agent reports about its host on registration and heartbeat.
#[derive(Debug, Clone, Default)]
pub struct HostSnapshot {
    pub hostname: String,
    pub platform: Option<PlatformId>,
    pub arch: String,
    pub agent_version: String,
    pub capabilities: AgentCapabilities,
    pub diagnostics: HostDiagnostics,
}

/// Body of the registration request.
#[derive(Debug, Clone)]
pub struct AgentRegistrationRequest {
    pub registration_token: String,
    pub device_fingerprint: String,
    pub fingerprint_version: String,
    pub snapshot: HostSnapshot,
}

/// Body of the registration response.
#[derive(Debug, Clone, Default)]
pub struct AgentRegistrationResponse {
    pub device_id: String,
    pub heartbeat_interval_seconds: i32,
    pub heartbeat_token: String,
    pub websocket_url: String,
    pub accepted_at: String,
}

/// Body of the heartbeat request.
#[derive(Debug, Clone)]
pub struct AgentHeartbeatRequest {
    pub device_id: String,
    pub heartbeat_token: String,
    pub snapshot: HostSnapshot,
}

/// Body of the heartbeat response.
#[derive(Debug, Clone, Default)]
pub struct AgentHeartbeatResponse {
    pub ok: bool,
    pub next_heartbeat_interval_seconds: i32,
    pub websocket_url: String,
    pub server_time: String,
}

/// One directory in a directory listing.
#[derive(Debug, Clone, Default)]
pub struct DirectoryEntry {
    pub name: String,
    pub path: String,
}

/// Modifier keys of a terminal shortcut.
#[derive(Debug, Clone, Copy, PartialEq, Eq, Structural)]
pub enum RemoteTerminalShortcutModifier {
    Ctrl,
    Alt,
    Shift,
    Meta,
}

/// Whether a shortcut sends a key press or a sequence of strings.
#[derive(Debug, Clone, Copy, PartialEq, Eq, Structural)]
pub enum RemoteTerminalShortcutKind {
    Sequence,
    Key,
}

impl Default for RemoteTerminalShortcutKind {
    fn default() -> (r: Self)
        ensures
            r == RemoteTerminalShortcutKind::Sequence,
    {
        RemoteTerminalShortcutKind::Sequence
    }
}

/// A terminal shortcut stored in the agent preferences.
#[derive(Debug, Clone, Default)]
pub struct RemoteTerminalShortcutData {
    pub id: String,
    pub label: String,
    pub kind: RemoteTerminalShortcutKind,
    pub sequence: Vec<String>,
    pub key: String,
    pub modifiers: Vec<RemoteTerminalShortcutModifier>,
    pub preset: bool,
}

/// A quick command stored in the agent preferences.
#[derive(Debug, Clone, Default)]
pub struct RemoteTerminalQuickCommandData {
    pub id: String,
    pub label: String,
    pub command: String,
}

/// The agent preferences that the browser terminal reads and writes.
#[derive(Debug, Clone, Default)]
pub struct RemoteTerminalAgentPreferencesData {
    pub default_working_directory: String,
    pub shortcuts: Vec<RemoteTerminalShortcutData>,
    pub quick_commands: Vec<RemoteTerminalQuickCommandData>,
}

/// `preferences-get` request.
#[derive(Debug, Clone)]
pub struct PreferencesGetMessage {
    pub message_type: String,
    pub request_id: String,
}

/// `preferences-set` request.
#[derive(Debug, Clone)]
pub struct PreferencesSetMessage {
    pub message_type: String,
    pub request_id: String,
    pub preferences: RemoteTerminalAgentPreferencesData,
}

/// `preferences-result` reply.
#[derive(Debug, Clone, Default)]
pub struct PreferencesResultMessage {
    pub message_type: String,
    pub request_id: String,
    pub ok: bool,
    pub message: String,
    pub preferences: RemoteTerminalAgentPreferencesData,
}

/// `session-start` request.
#[derive(Debug, Clone)]
pub struct SessionStartMessage {
    pub message_type: String,
    pub session_id: String,
    pub mode: String,
    pub shell_type: ShellType,
    pub working_directory: String,
}

/// `session-input` request.
#[derive(Debug, Clone)]
pub struct SessionInputMessage {
    pub message_type: String,
    pub session_id: String,
    pub data: String,
}

/// `session-resize` request.
#[derive(Debug, Clone)]
pub struct SessionResizeMessage {
    pub message_type: String,
    pub session_id: String,
    pub cols: i32,
    pub rows: i32,
}

/// `session-stop` request.
#[derive(Debug, Clone)]
pub struct SessionStopMessage {
    pub message_type: String,
    pub session_id: String,
}

/// `directory-browse` request.
#[derive(Debug, Clone)]
pub struct DirectoryBrowseRequestMessage {
    pub message_type: String,
    pub request_id: String,
    pub path: String,
}

/// `directory-browse-result` reply.
#[derive(Debug, Clone, Default)]
pub struct DirectoryBrowseResultMessage {
    pub message_type: String,
    pub request_id: String,
    pub ok: bool,
    pub message: String,
    pub current_path: String,
    pub parent_path: String,
    pub items: Vec<DirectoryEntry>,
}

/// `session-ready` notification.
#[derive(Debug, Clone)]
pub struct SessionReadyMessage {
    pub message_type: String,
    pub session_id: String,
}

/// `session-output` notification.
#[derive(Debug, Clone)]
pub struct SessionOutputMessage {
    pub message_type: String,
    pub session_id: String,
    pub stream: String,
    pub data: String,
}

/// `session-exit` notification.
#[derive(Debug, Clone)]
pub struct SessionExitMessage {
    pub message_type: String,
    pub session_id: String,
    pub exit_code: Option<i32>,
}

/// `session-error` notification.
#[derive(Debug, Clone)]
pub struct SessionErrorMessage {
    pub message_type: String,
    pub session_id: String,
    pub message: String,
}

/// Every shell's wire name reads back as that shell.
pub proof fn lemma_shell_name_roundtrip(t: ShellType)
    ensures
        shell_named(trim_seq(shell_name(t))) == Some(t),
{
    reveal_strlit("system-default");
    reveal_strlit("cmd");
    reveal_strlit("powershell");
    reveal_strlit("pwsh");
    reveal_strlit("bash");
    reveal_strlit("zsh");
    reveal_strlit("sh");
    let s = shell_name(t);
    assert(s.len() > 0 && !is_white_space(s[0]));
    assert(trim_start_seq(s) == s);
    assert(!is_white_space(s.last()));
    assert(trim_end_seq(s) == s);
}

} // verus!
