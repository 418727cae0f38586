use rtc_agent::service::{parse_sc_query_output, ServiceState};

#[test]
fn parse_running_state() {
    let output = "SERVICE_NAME: RemoteTerminalCloudAgent\nTYPE               : 10  WIN32_OWN_PROCESS\nSTATE              : 4  RUNNING\n";
    assert_eq!(parse_sc_query_output(output), ServiceState::Running);
}

#[test]
fn parse_stopped_state() {
    let output = "SERVICE_NAME: RemoteTerminalCloudAgent\nSTATE              : 1  STOPPED\n";
    assert_eq!(parse_sc_query_output(output), ServiceState::Stopped);
}

#[test]
fn parse_missing_service() {
    let output = "FAILED 1060: The specified service does not exist as an installed service.";
    assert_eq!(parse_sc_query_output(output), ServiceState::Missing);
}

#[test]
fn parse_missing_service_stderr() {
    let output = "The specified service does not exist as an installed service.";
    assert_eq!(parse_sc_query_output(output), ServiceState::Missing);
}

#[test]
fn parse_pending_state_is_unknown() {
    let output = "STATE              : 3  STOP_PENDING\n";
    assert_eq!(
        parse_sc_query_output(output),
        ServiceState::Unknown("STATE              : 3  STOP_PENDING".into())
    );
}

#[test]
fn parse_start_pending_is_unknown() {
    let output = "STATE              : 2  START_PENDING\n";
    assert_eq!(
        parse_sc_query_output(output),
        ServiceState::Unknown("STATE              : 2  START_PENDING".into())
    );
}

#[test]
fn parse_paused_is_unknown() {
    let output = "STATE              : 7  PAUSED\n";
    assert_eq!(
        parse_sc_query_output(output),
        ServiceState::Unknown("STATE              : 7  PAUSED".into())
    );
}

#[test]
fn parse_pause_pending_is_unknown() {
    let output = "STATE              : 6  PAUSE_PENDING\n";
    assert_eq!(
        parse_sc_query_output(output),
        ServiceState::Unknown("STATE              : 6  PAUSE_PENDING".into())
    );
}

#[test]
fn parse_continue_pending_is_unknown() {
    let output = "STATE              : 5  CONTINUE_PENDING\n";
    assert_eq!(
        parse_sc_query_output(output),
        ServiceState::Unknown("STATE              : 5  CONTINUE_PENDING".into())
    );
}

#[test]
fn parse_empty_string_is_unknown() {
    assert_eq!(parse_sc_query_output(""), ServiceState::Unknown("".into()));
}

#[test]
fn parse_whitespace_only_is_unknown() {
    assert_eq!(parse_sc_query_output("   "), ServiceState::Unknown("".into()));
}

#[test]
fn parse_newline_only_is_unknown() {
    assert_eq!(parse_sc_query_output("\n\n"), ServiceState::Unknown("".into()));
}

#[test]
fn parse_running_lowercase_in_full_output() {
    let output = "SERVICE_NAME: RemoteTerminalCloudAgent\nSTATE              : 4  running\n";
    assert_eq!(parse_sc_query_output(output), ServiceState::Running);
}

#[test]
fn parse_stopped_lowercase() {
    let output = "STATE              : 1  stopped\n";
    assert_eq!(parse_sc_query_output(output), ServiceState::Stopped);
}

#[test]
fn parse_missing_not_installed_text() {
    let output = "The service is not installed.";
    assert_eq!(parse_sc_query_output(output), ServiceState::Missing);
}

#[test]
fn parse_missing_failed_1060_without_full_text() {
    let output = "FAILED 1060";
    assert_eq!(parse_sc_query_output(output), ServiceState::Missing);
}

#[test]
fn parse_does_not_false_positive_on_service_running_in_name() {
    let output = "SERVICE_NAME: RunningService\nSTATE              : 1  STOPPED\n";
    assert_eq!(parse_sc_query_output(output), ServiceState::Stopped);
}

#[test]
fn parse_does_not_false_positive_on_stopped_in_other_text() {
    let output = "SERVICE_NAME: StoppedService\nSTATE              : 4  RUNNING\n";
    assert_eq!(parse_sc_query_output(output), ServiceState::Running);
}

#[test]
fn parse_output_with_only_service_name_is_unknown() {
    let output = "SERVICE_NAME: RemoteTerminalCloudAgent\nTYPE: OWN_PROCESS\n";
    assert_eq!(
        parse_sc_query_output(output),
        ServiceState::Unknown("SERVICE_NAME: RemoteTerminalCloudAgent\nTYPE: OWN_PROCESS".into())
    );
}

#[test]
fn parse_output_with_bom_prefix_is_unknown_not_missing() {
    let output = "\u{feff}STATE              : 4  RUNNING\n";
    assert_eq!(parse_sc_query_output(output), ServiceState::Running);
}

#[test]
fn parse_missing_multiline_stderr() {
    let output =
        "The specified service does not exist.\n\nTry running with administrator privileges.";
    assert_eq!(parse_sc_query_output(output), ServiceState::Missing);
}
