use rtc_agent::errors::{AgentError, ApiError, ApiErrorKind, RegisteredAgentSession};
use rtc_agent::runtime::{
    after_loop_failure, after_tunnel_closed, agent_websocket_url, backoff_delay_with_jitter,
    build_websocket_url, endpoint_url, heartbeat_wait_secs, route_server_message,
    websocket_scheme_for, FailureAction, ServerMessageKind, frame_action, FrameAction, ServerFrame,
};

fn session(url: &str) -> RegisteredAgentSession {
    RegisteredAgentSession {
        device_id: "dev 1".into(),
        heartbeat_token: "tok&x".into(),
        heartbeat_interval_seconds: 30,
        websocket_url: url.into(),
    }
}

#[test]
fn websocket_url_is_built_from_base_url() {
    let url = build_websocket_url("https://api.example.com/base/", &session("")).unwrap();
    assert_eq!(
        url,
        "wss://api.example.com/remote-terminal/ws?role=agent&deviceId=dev+1&heartbeatToken=tok%26x"
    );
    let url = build_websocket_url("http://localhost:10001", &session("")).unwrap();
    assert_eq!(url, "ws://localhost:10001/remote-terminal/ws?role=agent&deviceId=dev+1&heartbeatToken=tok%26x");
}

#[test]
fn websocket_url_errors() {
    let err = build_websocket_url("ftp://x", &session("")).unwrap_err();
    assert_eq!(err, "unsupported server base URL scheme: ftp");
    assert!(build_websocket_url("not a url", &session("")).is_err());
}

#[test]
fn session_websocket_url_wins() {
    assert_eq!(agent_websocket_url("http://x", &session("wss://given/ws")), Ok("wss://given/ws".to_string()));
}

#[test]
fn schemes_and_endpoints() {
    assert_eq!(websocket_scheme_for("https"), Some("wss"));
    assert_eq!(websocket_scheme_for("ws"), Some("ws"));
    assert_eq!(websocket_scheme_for("file"), None);
    assert_eq!(endpoint_url("https://a.b//", "/api/agents"), "https://a.b/api/agents");
}

#[test]
fn heartbeat_wait_is_at_least_a_second() {
    assert_eq!(heartbeat_wait_secs(0), 1);
    assert_eq!(heartbeat_wait_secs(-3), 1);
    assert_eq!(heartbeat_wait_secs(45), 45);
}

#[test]
fn failures_back_off_or_stop() {
    let auth = AgentError::Api(ApiError {
        kind: ApiErrorKind::InvalidToken,
        status: Some(401),
        code: None,
        message: "m".into(),
        suggestion: "s".into(),
    });
    assert_eq!(after_loop_failure(8, &auth), FailureAction::ClearStateAndStop);
    match after_loop_failure(8, &AgentError::Other("io".into())) {
        FailureAction::RetryAfter { delay_secs, next_backoff_secs } => {
            assert!(delay_secs == 8 || delay_secs == 9);
            assert_eq!(next_backoff_secs, 16);
        }
        other => panic!("unexpected {other:?}"),
    }
    let (delay, next) = after_tunnel_closed();
    assert!(delay == 2 || delay == 3);
    assert_eq!(next, 4);
    assert_eq!(backoff_delay_with_jitter(10, 7), 11);
    assert_eq!(backoff_delay_with_jitter(u64::MAX, 1), u64::MAX);
}

#[test]
fn server_messages_are_routed_by_type() {
    assert_eq!(route_server_message("session-start"), ServerMessageKind::SessionStart);
    assert_eq!(route_server_message("preferences-set"), ServerMessageKind::PreferencesSet);
}

#[test]
fn persisted_session_resumes_unchanged() {
    let original = session("wss://edge/ws");
    let state = rtc_agent::runtime::state_for_session(&original, "https://api", "fp", "v1");
    assert_eq!(state.server_base_url, "https://api");
    let resumed = rtc_agent::runtime::session_from_state(&state);
    assert_eq!(resumed.device_id, original.device_id);
    assert_eq!(resumed.heartbeat_token, original.heartbeat_token);
    assert_eq!(resumed.heartbeat_interval_seconds, original.heartbeat_interval_seconds);
    assert_eq!(resumed.websocket_url, original.websocket_url);
}

#[test]
fn tunnel_frames_decide_the_tunnel() {
    assert!(matches!(frame_action(&ServerFrame::Text), FrameAction::HandleMessage));
    assert!(matches!(frame_action(&ServerFrame::Binary), FrameAction::HandleMessage));
    assert!(matches!(frame_action(&ServerFrame::Ping), FrameAction::ReplyPong));
    assert!(matches!(frame_action(&ServerFrame::Pong), FrameAction::Ignore));
    assert!(matches!(frame_action(&ServerFrame::CloseWithoutPayload), FrameAction::EndTunnel));
    match frame_action(&ServerFrame::Close { code: 1001, reason: "going away".into() }) {
        FrameAction::Fail(m) => assert_eq!(m, "websocket closed by server (code 1001, reason `going away`)"),
        _ => panic!("a close frame with a payload fails the tunnel"),
    }
    match frame_action(&ServerFrame::StreamEnded) {
        FrameAction::Fail(m) => assert_eq!(m, "websocket stream ended without a close frame"),
        _ => panic!("an ended stream fails the tunnel"),
    }
}
