use rtc_agent::desktop::{
    decide_task_outcome, desktop_run_step, DesktopRunStep, RuntimeEvent, TaskOutcome, TaskSignal,
};
use rtc_agent::errors::AgentError;

fn message(error: &AgentError) -> String {
    match error {
        AgentError::Other(m) => m.clone(),
        AgentError::Api(e) => e.message.clone(),
    }
}

#[test]
fn run_steps_follow_token_registration_and_loops() {
    assert_eq!(desktop_run_step(false, false, true, true), DesktopRunStep::WaitForConfig);
    assert_eq!(desktop_run_step(true, false, true, true), DesktopRunStep::Register);
    assert_eq!(desktop_run_step(true, true, false, false), DesktopRunStep::WaitLoopsDisabled);
    assert_eq!(desktop_run_step(true, true, false, true), DesktopRunStep::StartTasks);
}

#[test]
fn ended_tunnel_task_restarts_the_connection() {
    let d = decide_task_outcome(true, true, TaskOutcome::Finished(TaskSignal::Tunnel));
    assert!(matches!(d.event, Some(RuntimeEvent::TaskEnded(TaskSignal::Tunnel))));
    assert_eq!(
        d.log_line.as_deref(),
        Some("[remote-terminal-cloud-agent] WebSocket tunnel exited unexpectedly; restarting agent connection.")
    );
    assert_eq!(message(&d.result.unwrap_err()), "WebSocket tunnel disconnected");
}

#[test]
fn failed_task_is_reported_by_its_error() {
    let d = decide_task_outcome(true, true, TaskOutcome::Failed(AgentError::Other("boom".into())));
    assert!(matches!(&d.event, Some(RuntimeEvent::TaskFailed(m)) if m == "boom"));
    assert_eq!(
        d.log_line.as_deref(),
        Some("[remote-terminal-cloud-agent] connection anomaly detected; restarting agent connection: boom")
    );
    assert_eq!(message(&d.result.unwrap_err()), "boom");
}

#[test]
fn unjoinable_task_is_an_error() {
    let d = decide_task_outcome(false, true, TaskOutcome::JoinFailed("panicked".into()));
    assert!(matches!(&d.event, Some(RuntimeEvent::TaskAborted(m)) if m == "panicked"));
    assert!(d.log_line.is_none());
    assert_eq!(message(&d.result.unwrap_err()), "agent background task failed: panicked");
}

#[test]
fn heartbeat_only_run_ends_with_the_task_result() {
    let d = decide_task_outcome(true, false, TaskOutcome::Finished(TaskSignal::Heartbeat));
    assert!(d.event.is_none() && d.result.is_ok());
    let d = decide_task_outcome(true, false, TaskOutcome::JoinFailed("cancelled".into()));
    assert_eq!(message(&d.result.unwrap_err()), "heartbeat task failed: cancelled");
    let d = decide_task_outcome(true, false, TaskOutcome::NoTasks);
    assert_eq!(message(&d.result.unwrap_err()), "agent runtime exited without active tasks");
}
