use rtc_agent::protocol::PlatformId;
use rtc_agent::service::{
    generate_launchd_plist, install_service, launchd_status_result, restart_service,
    service_status, service_status_command, start_service, stop_service, systemd_status_result,
    uninstall_service, windows_status_result, CommandOutput, CommandStatus, InstallRequest,
    ServiceStep, LINUX_SYSTEMD_SERVICE_NAME, MACOS_PLIST_PATH,
};

fn run_of(step: ServiceStep) -> Vec<String> {
    match step {
        ServiceStep::Run(c) => c,
        other => panic!("expected a command, got {other:?}"),
    }
}

fn finished(step: ServiceStep) -> Result<(String, bool, String), String> {
    match step {
        ServiceStep::Finished(r) => r.map(|x| (x.action, x.ok, x.message)),
        other => panic!("expected a result, got {other:?}"),
    }
}

fn output(success: bool, stdout: &str, stderr: &str) -> CommandOutput {
    CommandOutput { success, stdout: stdout.into(), stderr: stderr.into() }
}

#[test]
fn linux_start_runs_systemctl_then_reports() {
    let cmd = run_of(start_service(PlatformId::Linux, true, &[]));
    assert_eq!(cmd, vec!["systemctl", "start", LINUX_SYSTEMD_SERVICE_NAME]);
    let ok = finished(start_service(PlatformId::Linux, true, &[CommandStatus::Succeeded])).unwrap();
    assert_eq!(ok.0, "start");
    assert_eq!(ok.2, "systemd service 'remote-terminal-cloud-agent.service' started");
    let err = finished(start_service(PlatformId::Linux, true, &[CommandStatus::Failed])).unwrap_err();
    assert_eq!(err, "systemctl start remote-terminal-cloud-agent.service failed");
    let err = finished(start_service(
        PlatformId::Linux,
        true,
        &[CommandStatus::NotStarted("x".into())],
    ))
    .unwrap_err();
    assert_eq!(err, "failed to start Linux service");
}

#[test]
fn linux_without_systemctl_is_refused() {
    let err = finished(stop_service(PlatformId::Linux, false, &[])).unwrap_err();
    assert_eq!(err, "systemctl is not available on this host");
    let err = finished(uninstall_service(PlatformId::Linux, false, &[])).unwrap_err();
    assert_eq!(err, "systemctl is required to uninstall the Linux service");
}

#[test]
fn macos_stop_disables_the_service() {
    let cmd = run_of(stop_service(PlatformId::Macos, false, &[]));
    assert_eq!(cmd, vec!["launchctl", "disable", "system/com.remote-terminal-cloud.agent"]);
    let ok = finished(stop_service(PlatformId::Macos, false, &[CommandStatus::Succeeded])).unwrap();
    assert_eq!(ok.2, "launchd service 'com.remote-terminal-cloud.agent' stopped (disabled)");
}

#[test]
fn windows_restart_stops_waits_and_starts() {
    let cmd = run_of(restart_service(PlatformId::Windows, false, &[]));
    assert_eq!(cmd, vec!["sc", "stop", "RemoteTerminalCloudAgent"]);
    match restart_service(PlatformId::Windows, false, &[CommandStatus::Failed]) {
        ServiceStep::Sleep(2) => {}
        other => panic!("expected a pause, got {other:?}"),
    }
    let done = [CommandStatus::Failed, CommandStatus::Succeeded];
    assert_eq!(run_of(restart_service(PlatformId::Windows, false, &done)), vec![
        "sc",
        "start",
        "RemoteTerminalCloudAgent"
    ]);
    let done = [CommandStatus::Failed, CommandStatus::Succeeded, CommandStatus::Failed];
    let ok = finished(restart_service(PlatformId::Windows, false, &done)).unwrap();
    assert_eq!(ok.2, "service 'RemoteTerminalCloudAgent' restarted");
}

#[test]
fn macos_uninstall_reports_bootout_failure_after_cleanup() {
    assert!(matches!(
        uninstall_service(PlatformId::Macos, false, &[CommandStatus::NotStarted("boom".into())]),
        ServiceStep::RemovePlist
    ));
    let done = [CommandStatus::NotStarted("boom".into()), CommandStatus::Succeeded];
    let err = finished(uninstall_service(PlatformId::Macos, false, &done)).unwrap_err();
    assert_eq!(err, "failed to unload launchd service: boom");
}

#[test]
fn linux_install_reloads_then_enables() {
    let request = InstallRequest {
        install_root: "  /opt/rtc  ".into(),
        registration_token: None,
        plist_template: None,
        service_executable: String::new(),
    };
    assert_eq!(run_of(install_service(PlatformId::Linux, &request, true, &[])), vec![
        "systemctl",
        "daemon-reload"
    ]);
    let done = [CommandStatus::Succeeded];
    assert_eq!(run_of(install_service(PlatformId::Linux, &request, true, &done)), vec![
        "systemctl",
        "enable",
        "--now",
        LINUX_SYSTEMD_SERVICE_NAME
    ]);
    let done = [CommandStatus::Succeeded, CommandStatus::Succeeded];
    let ok = finished(install_service(PlatformId::Linux, &request, true, &done)).unwrap();
    assert_eq!(
        ok.2,
        "systemd service 'remote-terminal-cloud-agent.service' enabled and started for install root /opt/rtc"
    );
    let blank = InstallRequest { install_root: " ".into(), ..request };
    let err = finished(install_service(PlatformId::Linux, &blank, true, &[])).unwrap_err();
    assert_eq!(err, "linux service install requires an install_root");
}

#[test]
fn windows_install_with_token_saves_it_and_runs_as_local_system() {
    let request = InstallRequest {
        install_root: "C:\\Agent".into(),
        registration_token: Some("  tok  ".into()),
        plist_template: None,
        service_executable: "C:\\Agent\\rtc-agentd.exe".into(),
    };
    let create = run_of(install_service(PlatformId::Windows, &request, false, &[]));
    assert_eq!(create[0], "sc");
    assert_eq!(create[1], "create");
    assert_eq!(create[4], "\"C:\\Agent\\rtc-agentd.exe\" service-host");
    match install_service(PlatformId::Windows, &request, false, &[CommandStatus::Succeeded]) {
        ServiceStep::PersistToken(t) => assert_eq!(t, "tok"),
        other => panic!("expected the token to be saved, got {other:?}"),
    }
    let done = [CommandStatus::Succeeded, CommandStatus::Succeeded];
    assert_eq!(run_of(install_service(PlatformId::Windows, &request, false, &done)), vec![
        "sc",
        "config",
        "RemoteTerminalCloudAgent",
        "obj=",
        "LocalSystem"
    ]);
    let done = [CommandStatus::Succeeded, CommandStatus::Succeeded, CommandStatus::Failed];
    assert_eq!(run_of(install_service(PlatformId::Windows, &request, false, &done))[1], "start");
    let done = [
        CommandStatus::Succeeded,
        CommandStatus::Succeeded,
        CommandStatus::Failed,
        CommandStatus::Failed,
    ];
    let ok = finished(install_service(PlatformId::Windows, &request, false, &done)).unwrap();
    assert_eq!(ok.2, "service 'RemoteTerminalCloudAgent' installed and started from C:\\Agent");
}

#[test]
fn macos_install_writes_the_generated_definition() {
    let request = InstallRequest {
        install_root: "/opt/rtc".into(),
        registration_token: None,
        plist_template: None,
        service_executable: String::new(),
    };
    match install_service(PlatformId::Macos, &request, false, &[]) {
        ServiceStep::WritePlist(p) => assert_eq!(p, generate_launchd_plist("/opt/rtc")),
        other => panic!("expected the definition to be written, got {other:?}"),
    }
    let cmd = run_of(install_service(PlatformId::Macos, &request, false, &[CommandStatus::Succeeded]));
    assert_eq!(cmd, vec!["launchctl", "bootstrap", "system", MACOS_PLIST_PATH]);
}

#[test]
fn launchd_plist_points_at_install_root() {
    let plist = generate_launchd_plist("/opt/rtc");
    assert!(plist.starts_with("<?xml version=\"1.0\" encoding=\"UTF-8\"?>\n"));
    assert!(plist.contains("<string>/opt/rtc/bin/rtc-agent</string>"));
    assert!(plist.contains("<string>/opt/rtc/config.json</string>"));
    assert!(plist.contains("<string>com.remote-terminal-cloud.agent</string>"));
    assert!(plist.ends_with("</plist>\n"));
}

#[test]
fn status_results_per_platform() {
    let r = systemd_status_result(true, Ok(output(true, "  \n", "  inactive  ")));
    assert_eq!((r.action.as_str(), r.ok, r.message.as_str()), ("status", true, "inactive"));
    let r = systemd_status_result(false, Ok(output(true, "x", "")));
    assert_eq!(r.message, "systemctl is not available on this host.");
    let r = launchd_status_result(Ok(output(true, "state = running", "")));
    assert_eq!(r.message, "launchd service 'com.remote-terminal-cloud.agent' is running");
    let r = launchd_status_result(Ok(output(false, "", "Could not find service")));
    assert!(r.ok);
    assert_eq!(r.message, "launchd service 'com.remote-terminal-cloud.agent' is not installed (pending)");
    let r = windows_status_result(Err("denied".into()));
    assert_eq!(r.message, "failed to query service: denied");
    let r = service_status(PlatformId::Windows, false, Ok(output(false, "", "FAILED 1060")));
    assert_eq!((r.ok, r.message.as_str()), (false, "FAILED 1060"));
}

#[test]
fn status_commands_per_platform() {
    assert_eq!(service_status_command(PlatformId::Windows), vec!["sc", "query", "RemoteTerminalCloudAgent"]);
    assert_eq!(service_status_command(PlatformId::Macos), vec![
        "launchctl",
        "print",
        "system/com.remote-terminal-cloud.agent"
    ]);
    assert_eq!(service_status_command(PlatformId::Linux)[1], "status");
}
