use rtc_agent::desktop::{
    apply_runtime_event, autostart_message, compute_retry_delay, desktop_agent_action_outcome,
    finish_supervisor, has_saved_registration_token, looks_like_service_running, onboarding_required,
    parse_desktop_agent_action, plan_retry, reconcile_agent_state, runtime_status_summary,
    seconds_since, stale_heartbeat, task_signal_label, token_state, validate_token, AgentLogEntry,
    DesktopAgentAction, DesktopRuntimePhase, DesktopRuntimeSnapshot, LogBuffer, RuntimeEvent,
    TaskSignal, MAX_LOG_ENTRIES,
};

#[test]
fn snapshot_default_is_idle() {
    let s = DesktopRuntimeSnapshot::default();
    assert_eq!(s.phase, DesktopRuntimePhase::Idle);
    assert!(!s.connected);
    assert_eq!(s.retry_attempt, 0);
    assert!(s.last_error.is_none());
}

#[test]
fn retry_delay_doubles_up_to_ninety_seconds() {
    let delays: Vec<u64> = (0..9).map(compute_retry_delay).collect();
    assert_eq!(delays, vec![10, 20, 40, 80, 90, 90, 90, 90, 90]);
    assert_eq!(compute_retry_delay(u32::MAX), 90);
}

#[test]
fn task_labels() {
    assert_eq!(task_signal_label(TaskSignal::Heartbeat), "Heartbeat loop");
    assert_eq!(task_signal_label(TaskSignal::Tunnel), "WebSocket tunnel");
    assert_eq!(task_signal_label(TaskSignal::Watchdog), "Heartbeat watchdog");
}

#[test]
fn summary_for_online_agent_names_device() {
    let mut s = DesktopRuntimeSnapshot::default();
    apply_runtime_event(&mut s, RuntimeEvent::Registered("dev-1".into()));
    apply_runtime_event(&mut s, RuntimeEvent::TunnelConnected("wss://x".into()));
    assert_eq!(runtime_status_summary(&s, true, true), "Agent 已在线，设备 ID: dev-1。心跳与隧道连接正常。");
}

#[test]
fn summary_for_reconnecting_counts_attempts() {
    let mut s = DesktopRuntimeSnapshot::default();
    apply_runtime_event(&mut s, RuntimeEvent::RetryScheduled(3, "boom".into()));
    assert_eq!(runtime_status_summary(&s, true, true), "Agent 连接已中断，正在自动重连（第 3 次）。boom");
    let mut s = DesktopRuntimeSnapshot::default();
    s.phase = DesktopRuntimePhase::Reconnecting;
    assert_eq!(runtime_status_summary(&s, true, true), "Agent 连接已中断，正在自动重连（第 1 次）。请查看日志面板。");
}

#[test]
fn summary_for_idle_depends_on_token() {
    let s = DesktopRuntimeSnapshot::default();
    assert_eq!(runtime_status_summary(&s, false, true), "Ready to start in tray background mode.");
    assert_eq!(
        runtime_status_summary(&s, false, false),
        "Token is required before the background agent can start."
    );
    assert_eq!(runtime_status_summary(&s, true, false), "Agent 进程已启动，正在等待连接状态更新。");
}

#[test]
fn stop_disconnects_and_clears_error() {
    let mut s = DesktopRuntimeSnapshot::default();
    apply_runtime_event(&mut s, RuntimeEvent::TunnelConnected("wss://x".into()));
    apply_runtime_event(&mut s, RuntimeEvent::TaskFailed("bad".into()));
    assert_eq!(s.phase, DesktopRuntimePhase::Reconnecting);
    assert_eq!(s.last_error.as_deref(), Some("bad"));
    apply_runtime_event(&mut s, RuntimeEvent::Stopped);
    assert_eq!(s.phase, DesktopRuntimePhase::Stopped);
    assert!(!s.connected);
    assert!(s.websocket_url.is_none());
    assert!(s.last_error.is_none());
}

#[test]
fn task_ending_names_the_task() {
    let mut s = DesktopRuntimeSnapshot::default();
    apply_runtime_event(&mut s, RuntimeEvent::TaskEnded(TaskSignal::Tunnel));
    assert_eq!(s.last_error.as_deref(), Some("WebSocket tunnel disconnected. Reconnecting to the backend."));
}

#[test]
fn heartbeat_marks_online_only_with_websocket() {
    let mut s = DesktopRuntimeSnapshot::default();
    s.phase = DesktopRuntimePhase::Reconnecting;
    apply_runtime_event(&mut s, RuntimeEvent::HeartbeatSucceeded("100".into()));
    assert!(s.connected);
    assert_eq!(s.phase, DesktopRuntimePhase::Reconnecting);
    s.websocket_url = Some("wss://x".into());
    apply_runtime_event(&mut s, RuntimeEvent::HeartbeatSucceeded("101".into()));
    assert_eq!(s.phase, DesktopRuntimePhase::Online);
}

#[test]
fn reconcile_and_finish() {
    let mut s = DesktopRuntimeSnapshot::default();
    reconcile_agent_state(&mut s, false, true);
    assert_eq!(s.phase, DesktopRuntimePhase::Stopped);
    let mut s = DesktopRuntimeSnapshot::default();
    s.phase = DesktopRuntimePhase::Online;
    s.connected = true;
    finish_supervisor(&mut s, true);
    assert_eq!(s.phase, DesktopRuntimePhase::Online);
    assert!(!s.connected);
    finish_supervisor(&mut s, false);
    assert_eq!(s.phase, DesktopRuntimePhase::Stopped);
}

#[test]
fn running_service_detection() {
    assert!(looks_like_service_running("STATE : 4 RUNNING"));
    assert!(!looks_like_service_running("STATE : 2 START_PENDING running"));
    assert!(!looks_like_service_running("stopped"));
}

#[test]
fn token_sources() {
    assert_eq!(token_state(Some(" t ".into()), &None), (true, "environment variable RTC_REGISTRATION_TOKEN".to_string()));
    assert_eq!(token_state(Some("replace-with-real-token".into()), &Some("f".into())), (true, "config file".to_string()));
    assert_eq!(token_state(None, &None), (false, "none".to_string()));
    assert!(has_saved_registration_token(None, &Some("f".into())));
    assert!(!has_saved_registration_token(Some("  ".into()), &None));
}

#[test]
fn onboarding_rules() {
    assert!(onboarding_required(&Some(" YES ".into()), true, true));
    assert!(onboarding_required(&None, false, true));
    assert!(onboarding_required(&None, true, false));
    assert!(!onboarding_required(&Some("0".into()), true, true));
}

#[test]
fn saved_token_must_not_be_blank() {
    assert_eq!(validate_token("  abc "), Ok("abc".to_string()));
    assert_eq!(validate_token("   "), Err("Token cannot be empty.".to_string()));
}

#[test]
fn desktop_actions_parse_case_insensitively() {
    assert_eq!(parse_desktop_agent_action(" Start "), Ok(DesktopAgentAction::Start));
    assert_eq!(parse_desktop_agent_action("STATUS"), Ok(DesktopAgentAction::Status));
    assert_eq!(
        parse_desktop_agent_action(" Jump "),
        Err("Unsupported desktop agent action: jump".to_string())
    );
    assert_eq!(desktop_agent_action_outcome(DesktopAgentAction::Stop), (
        "stop",
        "Desktop background agent has been stopped."
    ));
    assert_eq!(
        autostart_message(false),
        "Desktop manager autostart has been disabled for this user."
    );
}

fn entry(i: usize) -> AgentLogEntry {
    AgentLogEntry { stream: "stdout".into(), line: format!("line {i}") }
}

#[test]
fn log_keeps_latest_entries() {
    let mut log = LogBuffer::new();
    for i in 0..(MAX_LOG_ENTRIES + 5) {
        log.push(entry(i));
    }
    let kept = log.entries();
    assert_eq!(kept.len(), MAX_LOG_ENTRIES);
    assert_eq!(kept[0].line, "line 5");
    assert_eq!(kept[MAX_LOG_ENTRIES - 1].line, format!("line {}", MAX_LOG_ENTRIES + 4));
}

#[test]
fn heartbeat_age_and_watchdog() {
    assert_eq!(seconds_since(" 100 ", 250), Some(150));
    assert_eq!(seconds_since("300", 250), Some(0));
    assert_eq!(seconds_since("+7", 10), Some(3));
    assert_eq!(seconds_since("abc", 10), None);
    let mut s = DesktopRuntimeSnapshot::default();
    s.connected = true;
    s.last_heartbeat_at = Some("100".into());
    assert_eq!(stale_heartbeat(&s, 175), None);
    assert_eq!(stale_heartbeat(&s, 176), Some(76));
    s.connected = false;
    assert_eq!(stale_heartbeat(&s, 1000), None);
}

#[test]
fn retry_plan_after_failure() {
    let plan = plan_retry(2, "network down");
    assert_eq!(plan.attempt, 3);
    assert_eq!(plan.delay_secs, 80);
    assert_eq!(plan.error_line, "[remote-terminal-cloud-agent] runtime error: network down");
    assert_eq!(plan.schedule_line, "[remote-terminal-cloud-agent] reconnect scheduled in 80s (attempt 3).");
    let saturated = plan_retry(u32::MAX, "x");
    assert_eq!(saturated.attempt, u32::MAX);
    assert_eq!(saturated.delay_secs, 90);
}
