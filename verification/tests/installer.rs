use rtc_agent::installer::{
    installer_install_root, parse_installer_action, process_under_install_root, save_token_value,
    service_at_rest, tasklist_csv_pids, tasklist_line_pid, InstallerAction,
};
use rtc_agent::service::ServiceState;

#[test]
fn installer_actions_and_aliases() {
    assert_eq!(parse_installer_action(None), Ok(InstallerAction::Help));
    assert_eq!(parse_installer_action(Some("-h".into())), Ok(InstallerAction::Help));
    assert_eq!(parse_installer_action(Some("stop-service".into())), Ok(InstallerAction::Stop));
    assert_eq!(parse_installer_action(Some("open-logs".into())), Ok(InstallerAction::OpenLogs));
    assert_eq!(
        parse_installer_action(Some("fly".into())),
        Err("unknown windows installer action: fly".to_string())
    );
}

#[test]
fn install_root_and_token() {
    assert_eq!(installer_install_root(&Some("  D:\\RTC ".into()), "C:\\X"), "D:\\RTC");
    assert_eq!(installer_install_root(&Some("  ".into()), "C:\\X"), "C:\\X");
    assert_eq!(save_token_value(&None, &Some(" tok ".into())), Ok("tok".to_string()));
    assert_eq!(save_token_value(&Some("a".into()), &Some("b".into())), Ok("a".to_string()));
    assert_eq!(
        save_token_value(&None, &None),
        Err("windows save-token requires a token value".to_string())
    );
}

#[test]
fn service_rest_states() {
    assert!(service_at_rest(&ServiceState::Stopped));
    assert!(service_at_rest(&ServiceState::Missing));
    assert!(!service_at_rest(&ServiceState::Running));
    assert!(!service_at_rest(&ServiceState::Unknown("x".into())));
}

#[test]
fn tasklist_csv_is_read() {
    assert_eq!(tasklist_line_pid("\"rtc-agent.exe\",\"4242\",\"Console\",\"1\",\"10,000 K\""), Some(4242));
    assert_eq!(tasklist_line_pid("INFO: No tasks are running which match the specified criteria."), None);
    let output = "\"rtc-agent.exe\",\"10\",\"Services\",\"0\",\"5 K\"\r\n\r\n\"rtc-agentd.exe\",\" 20 \",\"Console\",\"1\",\"6 K\"\r\n";
    assert_eq!(tasklist_csv_pids(output), vec![10, 20]);
}

#[test]
fn processes_under_install_root() {
    assert!(process_under_install_root("ExecutablePath=C:\\Program Files\\RTC\\rtc-agent.exe", " c:\\program files\\rtc "));
    assert!(!process_under_install_root("ExecutablePath=C:\\Other\\rtc-agent.exe", "C:\\RTC"));
    assert!(!process_under_install_root("anything", "   "));
}
