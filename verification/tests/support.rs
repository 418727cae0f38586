use rtc_agent::config::normalize_template_string;
use rtc_agent::errors::{is_authentication_error, AgentError, ApiError, ApiErrorKind};
use rtc_agent::protocol::ShellType;
use rtc_agent::runtime::{grow_backoff, join_shells, next_backoff_delay};

fn normalize(value: Option<&str>) -> Option<String> {
    normalize_template_string(value.map(String::from))
}

fn api_error(kind: ApiErrorKind, status: u16, message: &str, suggestion: &str) -> AgentError {
    AgentError::Api(ApiError {
        kind,
        status: Some(status),
        code: None,
        message: message.into(),
        suggestion: suggestion.into(),
    })
}

#[test]
fn grow_backoff_doubles() {
    assert_eq!(grow_backoff(2), 4);
    assert_eq!(grow_backoff(4), 8);
    assert_eq!(grow_backoff(8), 16);
}

#[test]
fn grow_backoff_capped_at_max() {
    let max = 60;
    assert_eq!(grow_backoff(60), max);
    assert_eq!(grow_backoff(100), max);
}

#[test]
fn grow_backoff_zero_stays_zero() {
    assert_eq!(grow_backoff(0), 0);
}

#[test]
fn next_backoff_delay_at_least_base() {
    let delay = next_backoff_delay(10);
    assert!(delay >= 10);
    assert!(delay <= 11);
}

#[test]
fn join_shells_empty() {
    assert_eq!(join_shells(&[]), "none");
}

#[test]
fn join_shells_single() {
    let shells = [ShellType::Bash];
    assert_eq!(join_shells(&shells), "bash");
}

#[test]
fn join_shells_multiple() {
    let shells = [ShellType::Bash, ShellType::Zsh, ShellType::Powershell];
    let result = join_shells(&shells);
    assert!(result.contains("bash"));
    assert!(result.contains("zsh"));
    assert!(result.contains("powershell"));
    assert_eq!(result.matches(", ").count(), 2);
}

#[test]
fn join_shells_keeps_order() {
    let shells = [ShellType::Zsh, ShellType::SystemDefault, ShellType::Cmd];
    assert_eq!(join_shells(&shells), "zsh, system-default, cmd");
}

#[test]
fn auth_error_invalid_token() {
    let err = api_error(ApiErrorKind::InvalidToken, 401, "invalid token", "update token");
    assert!(is_authentication_error(&err));
}

#[test]
fn auth_error_unauthorized() {
    let err = api_error(ApiErrorKind::Unauthorized, 403, "unauthorized", "check credentials");
    assert!(is_authentication_error(&err));
}

#[test]
fn transport_error_not_auth() {
    let err = api_error(ApiErrorKind::Transport, 503, "service unavailable", "retry later");
    assert!(!is_authentication_error(&err));
}

#[test]
fn generic_error_not_auth() {
    let err = AgentError::Other("something completely different".into());
    assert!(!is_authentication_error(&err));
}

#[test]
fn normalize_none_is_none() {
    assert_eq!(normalize(None), None);
}

#[test]
fn normalize_empty_is_none() {
    assert_eq!(normalize(Some("")), None);
}

#[test]
fn normalize_whitespace_only_is_none() {
    assert_eq!(normalize(Some("  ")), None);
}

#[test]
fn normalize_placeholder_token_is_none() {
    assert_eq!(normalize(Some("replace-with-real-token")), None);
}

#[test]
fn normalize_valid_token_preserved() {
    assert_eq!(normalize(Some("abc123")), Some("abc123".into()));
}

#[test]
fn normalize_valid_token_trimmed() {
    assert_eq!(normalize(Some("  abc-456  ")), Some("abc-456".into()));
}

#[test]
fn normalize_placeholder_with_whitespace() {
    assert_eq!(normalize(Some("  replace-with-real-token  ")), None);
}

#[test]
fn normalize_twice_is_normalize_once() {
    let once = normalize(Some("  tok en  "));
    assert_eq!(normalize_template_string(once.clone()), once);
}
