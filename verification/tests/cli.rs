use rtc_agent::cli::{
    add_dir_to_path, missing_token_notice, parse_pid, parse_service_command, path_export_line,
    platform_name, registered_device_notice, registration_token_source, registry_path_value,
    registry_value,
    remove_dir_from_path, remove_dir_from_rc, startup_notice_lines, status_report, tasklist_shows_pid,
    token_status, ServiceCommand,
};
use rtc_agent::config::RuntimeConfig;
use rtc_agent::preferences::PreferencesSummary;
use rtc_agent::protocol::{HostSnapshot, PlatformId, ShellType};

#[test]
fn token_reporting() {
    assert_eq!(token_status(true), "configured");
    assert_eq!(token_status(false), "missing");
    assert_eq!(registration_token_source(true, true), "environment variable RTC_REGISTRATION_TOKEN");
    assert_eq!(registration_token_source(true, false), "config file");
    assert_eq!(registration_token_source(false, true), "none");
    assert_eq!(platform_name(Some(PlatformId::Macos)), "macos");
    assert_eq!(platform_name(None), "unknown");
}

#[test]
fn status_report_uses_effective_shell() {
    let config = RuntimeConfig {
        server_base_url: "https://api.qysyw.cn".into(),
        registration_token: Some("t".into()),
        run_heartbeat: true,
        run_tunnel: false,
        default_shell_type: ShellType::Zsh,
        enabled_shell_types: vec![ShellType::Bash],
        preferences_file_path: "/p.json".into(),
        config_file_path: "/c.json".into(),
    };
    let mut snapshot = HostSnapshot::default();
    snapshot.platform = Some(PlatformId::Linux);
    snapshot.arch = "x86_64".into();
    snapshot.diagnostics.available_shells = vec![ShellType::Bash, ShellType::Sh];
    let summary = PreferencesSummary {
        default_working_directory: "/w".into(),
        shortcuts_count: 2,
        quick_commands_count: 1,
    };
    let report = status_report("0.3.1", &config, &snapshot, false, summary);
    assert_eq!(report.registration_token, "configured");
    assert_eq!(report.registration_token_source, "config file");
    assert_eq!(report.configured_default_shell, "zsh");
    assert_eq!(report.effective_default_shell, "bash");
    assert_eq!(report.available_shells, vec!["bash", "sh"]);
    assert_eq!(report.platform, "linux");
    assert_eq!(report.preferences_summary.shortcuts_count, 2);
}

#[test]
fn service_commands() {
    assert!(matches!(parse_service_command(None, None), Ok(ServiceCommand::Status)));
    match parse_service_command(Some("install".into()), Some("  ".into())) {
        Ok(ServiceCommand::Install(t)) => assert_eq!(t, None),
        other => panic!("unexpected {other:?}"),
    }
    match parse_service_command(Some("install".into()), Some(" tok ".into())) {
        Ok(ServiceCommand::Install(t)) => assert_eq!(t, Some(" tok ".to_string())),
        other => panic!("unexpected {other:?}"),
    }
    assert_eq!(
        parse_service_command(Some("reboot".into()), None).unwrap_err(),
        "unknown service action: reboot"
    );
}

#[test]
fn pid_files() {
    assert_eq!(parse_pid(" 4242\n"), Some(4242));
    assert_eq!(parse_pid("abc"), None);
    assert_eq!(parse_pid("99999999999"), None);
    assert!(tasklist_shows_pid("rtc-agent.exe  4242 Console", 4242));
    assert!(!tasklist_shows_pid("INFO: No tasks are running", 4242));
}

#[test]
fn notices() {
    assert_eq!(
        registered_device_notice("dev-1", "0123456789abcdef"),
        "[remote-terminal-cloud-agent] registered device dev-1 for fingerprint 0123456789ab"
    );
    assert_eq!(
        registered_device_notice("dev-1", "abc"),
        "[remote-terminal-cloud-agent] registered device dev-1 for fingerprint abc"
    );
    let lines = startup_notice_lines(ShellType::Zsh, ShellType::Bash, false, false);
    assert_eq!(lines, vec![
        "[remote-terminal-cloud-agent] RTC_DEFAULT_SHELL=zsh is unavailable; fallback to bash.",
        "[remote-terminal-cloud-agent] SSH precheck failed."
    ]);
    assert!(startup_notice_lines(ShellType::Bash, ShellType::Bash, false, true).is_empty());
    assert!(missing_token_notice(false, "/c.json").starts_with(
        "[remote-terminal-cloud-agent] waiting for configuration: set RTC_REGISTRATION_TOKEN in /c.json"
    ));
}

#[test]
fn unix_path_registration() {
    assert_eq!(path_export_line("/opt/rtc/bin"), "\nexport PATH=\"/opt/rtc/bin:$PATH\"  # rtc-agent\n");
    let rc = "alias ll='ls -l'\nexport PATH=\"/opt/rtc/bin:$PATH\"  # rtc-agent\nexport X=1";
    assert_eq!(
        remove_dir_from_rc(rc, "/opt/rtc/bin"),
        Some("alias ll='ls -l'\nexport X=1\n".to_string())
    );
    assert_eq!(remove_dir_from_rc("nothing", "/opt/rtc/bin"), None);
}

#[test]
fn windows_path_registration() {
    assert_eq!(add_dir_to_path("", "C:\\RTC\\bin"), Some("C:\\RTC\\bin".to_string()));
    assert_eq!(
        add_dir_to_path("C:\\Windows", "C:\\RTC\\bin"),
        Some("C:\\Windows;C:\\RTC\\bin".to_string())
    );
    assert_eq!(add_dir_to_path("C:\\Windows;c:\\rtc\\BIN", "C:\\RTC\\bin"), None);
    assert_eq!(
        remove_dir_from_path("C:\\Windows;c:\\rtc\\BIN;D:\\x", "C:\\RTC\\bin"),
        Some("C:\\Windows;D:\\x".to_string())
    );
    assert_eq!(remove_dir_from_path("C:\\Windows", "C:\\RTC\\bin"), None);
}

#[test]
fn registry_path_is_read_from_reg_query_output() {
    let output = "\r\nHKEY_CURRENT_USER\\Environment\r\n    Path    REG_EXPAND_SZ    C:\\A;C:\\B\r\n\r\n";
    assert_eq!(registry_path_value(output), "C:\\A;C:\\B");
    assert_eq!(registry_path_value("nothing"), "");
}

#[test]
fn registry_value_reads_the_named_value() {
    let output = "\r\nHKEY_LOCAL_MACHINE\\SOFTWARE\\Microsoft\\Cryptography\r\n    MachineGuid    REG_SZ    1234-abcd\r\n\r\n";
    assert_eq!(registry_value(output, "MachineGuid"), "1234-abcd");
    assert_eq!(registry_value(output, "Path"), "");
}
