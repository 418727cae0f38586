use rtc_agent::protocol::{
    parse_shell_type, AgentCapabilities, AgentHeartbeatResponse, DirectoryBrowseResultMessage,
    PreferencesResultMessage, RemoteTerminalShortcutKind, ShellType,
};

#[test]
fn shell_type_as_str() {
    assert_eq!(ShellType::SystemDefault.as_str(), "system-default");
    assert_eq!(ShellType::Cmd.as_str(), "cmd");
    assert_eq!(ShellType::Powershell.as_str(), "powershell");
    assert_eq!(ShellType::Pwsh.as_str(), "pwsh");
    assert_eq!(ShellType::Bash.as_str(), "bash");
    assert_eq!(ShellType::Zsh.as_str(), "zsh");
    assert_eq!(ShellType::Sh.as_str(), "sh");
}

#[test]
fn shortcut_kind_default_is_sequence() {
    assert_eq!(RemoteTerminalShortcutKind::default(), RemoteTerminalShortcutKind::Sequence);
}

#[test]
fn agent_capabilities_defaults() {
    let caps = AgentCapabilities::default();
    assert!(!caps.session_recording);
}

#[test]
fn heartbeat_response_defaults() {
    let resp = AgentHeartbeatResponse::default();
    assert!(!resp.ok);
    assert_eq!(resp.next_heartbeat_interval_seconds, 0);
}

#[test]
fn preferences_result_message_defaults() {
    let msg = PreferencesResultMessage::default();
    assert!(!msg.ok);
}

#[test]
fn directory_browse_result_default_ok_is_false() {
    let msg = DirectoryBrowseResultMessage::default();
    assert!(!msg.ok);
    assert_eq!(msg.current_path, "");
}

#[test]
fn shell_names_parse_back() {
    let all = [
        ShellType::SystemDefault,
        ShellType::Cmd,
        ShellType::Powershell,
        ShellType::Pwsh,
        ShellType::Bash,
        ShellType::Zsh,
        ShellType::Sh,
    ];
    for t in all {
        assert_eq!(parse_shell_type(t.as_str().to_string()), Some(t));
    }
    assert_eq!(parse_shell_type("  zsh ".into()), Some(ShellType::Zsh));
    assert_eq!(parse_shell_type("fish".into()), None);
}
