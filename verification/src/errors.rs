//! Classification of backend and transport failures into the error kinds the agent reports,
//! with the message and suggestion shown to the user.
use vstd::prelude::*;

use crate::config::opt_view;
use crate::text::{
    ascii_lower_seq, ascii_lowercase, contains, contains_seq, decimal, decimal_string, is_blank,
    is_blank_seq, owned, trim, trim_seq,
};

verus! {

/// The kinds of failure the agent distinguishes.
#[derive(Debug, Clone, Copy, PartialEq, Eq, Structural)]
pub enum ApiErrorKind {
    InvalidToken,
    DeviceLimitReached,
    GatewayUnavailable,
    ProxyConfiguration,
    WebsocketUnavailable,
    Unauthorized,
    ServerRejected,
    Transport,
    Unexpected,
}

/// A classified failure as shown to the user.
#[derive(Debug, Clone)]
pub struct ApiErrorDetails {
    pub kind: ApiErrorKind,
    pub status: Option<u16>,
    pub code: Option<i64>,
    pub message: String,
    pub suggestion: String,
}

/// A classified failure of a backend request.
#[derive(Debug, Clone)]
pub struct ApiError {
    pub kind: ApiErrorKind,
    pub status: Option<u16>,
    pub code: Option<i64>,
    pub message: String,
    pub suggestion: String,
}

/// A failure of the agent runtime: a classified backend failure, or any other error with
/// its message.
#[derive(Debug, Clone)]
pub enum AgentError {
    Api(ApiError),
    Other(String),
}

/// The error body a backend returns: a code and a message, each optional.
#[derive(Debug, Clone, Default)]
pub struct BackendErrorBody {
    pub code: Option<i64>,
    pub message: Option<String>,
}

/// What is known of a failed HTTP exchange that never produced a response.
#[derive(Debug, Clone)]
pub struct TransportFailure {
    pub is_timeout: bool,
    pub is_connect: bool,
    pub is_request: bool,
    pub status: Option<u16>,
    pub rendered: String,
}

/// A registered agent: its device id, heartbeat credentials and websocket endpoint.
#[derive(Debug, Clone)]
pub struct RegisteredAgentSession {
    pub device_id: String,
    pub heartbeat_token: String,
    pub heartbeat_interval_seconds: i32,
    pub websocket_url: String,
}

/// How a backend failure is classified from its status, code and message.
pub open spec fn backend_error_kind(status: u16, code: Option<i64>, message: Seq<char>) -> ApiErrorKind {
    let n = ascii_lower_seq(message);
    if contains_seq(n, "invalid or expired registration token"@) || contains_seq(
        n,
        "invalid registration token"@,
    ) || contains_seq(n, "token expired"@) {
        ApiErrorKind::InvalidToken
    } else if contains_seq(n, "device limit reached"@) || contains_seq(n, "entitlement"@) {
        ApiErrorKind::DeviceLimitReached
    } else if status == 401 || status == 403 {
        ApiErrorKind::Unauthorized
    } else if status == 502 || status == 503 || status == 504 {
        ApiErrorKind::GatewayUnavailable
    } else if status == 407 || contains_seq(n, "proxy"@) {
        ApiErrorKind::ProxyConfiguration
    } else if 400 <= status && status < 500 {
        ApiErrorKind::ServerRejected
    } else if status >= 500 {
        ApiErrorKind::Transport
    } else if code == Some(1002i64) {
        ApiErrorKind::ServerRejected
    } else {
        ApiErrorKind::Unexpected
    }
}

/// Classifies a backend failure (see `backend_error_kind`).
pub fn classify_backend_error(status: u16, code: Option<i64>, message: &str) -> (r: ApiErrorKind)
    ensures
        r == backend_error_kind(status, code, message@),
{
    let lowered = ascii_lowercase(message);
    let n = lowered.as_str();
    if contains(n, "invalid or expired registration token") || contains(
        n,
        "invalid registration token",
    ) || contains(n, "token expired") {
        return ApiErrorKind::InvalidToken;
    }
    if contains(n, "device limit reached") || contains(n, "entitlement") {
        return ApiErrorKind::DeviceLimitReached;
    }
    if status == 401 || status == 403 {
        return ApiErrorKind::Unauthorized;
    }
    if status == 502 || status == 503 || status == 504 {
        return ApiErrorKind::GatewayUnavailable;
    }
    if status == 407 || contains(n, "proxy") {
        return ApiErrorKind::ProxyConfiguration;
    }
    if status >= 400 && status < 500 {
        return ApiErrorKind::ServerRejected;
    }
    if status >= 500 {
        return ApiErrorKind::Transport;
    }
    if code == Some(1002i64) {
        return ApiErrorKind::ServerRejected;
    }
    ApiErrorKind::Unexpected
}

/// The message mentions a token problem or the device limit (after lower-casing), which
/// decides the kind before the status does.
pub open spec fn mentions_token_or_limit(message: Seq<char>) -> bool {
    let n = ascii_lower_seq(message);
    contains_seq(n, "invalid or expired registration token"@) || contains_seq(
        n,
        "invalid registration token"@,
    ) || contains_seq(n, "token expired"@) || contains_seq(n, "device limit reached"@)
        || contains_seq(n, "entitlement"@)
}

/// What the status of a failed backend response says when the message names neither a
/// token problem nor the device limit: 401 and 403 are refused credentials; 502, 503 and
/// 504 are an unavailable gateway, shown as "Backend gateway is temporarily unavailable.";
/// any other 5xx status without a proxy in the message is a transport failure, shown with
/// the context and the backend's message; 407 is a proxy problem.
pub proof fn lemma_backend_status_kinds(status: u16, code: Option<i64>, message: Seq<char>, context: Seq<char>)
    requires
        !mentions_token_or_limit(message),
    ensures
        (status == 401 || status == 403) ==> backend_error_kind(status, code, message)
            == ApiErrorKind::Unauthorized,
        (status == 502 || status == 503 || status == 504) ==> backend_error_kind(status, code, message)
            == ApiErrorKind::GatewayUnavailable,
        (status == 502 || status == 503 || status == 504) ==> kind_message(
            backend_error_kind(status, code, message),
            context,
            message,
        ) == "Backend gateway is temporarily unavailable."@,
        (500 <= status && status != 502 && status != 503 && status != 504 && !contains_seq(
            ascii_lower_seq(message),
            "proxy"@,
        )) ==> backend_error_kind(status, code, message) == ApiErrorKind::Transport && kind_message(
            backend_error_kind(status, code, message),
            context,
            message,
        ) == context + " failed while contacting the backend: "@ + message,
        status == 407 ==> backend_error_kind(status, code, message) == ApiErrorKind::ProxyConfiguration,
{
}

/// A message naming a token problem is a token problem, whatever the status; one naming
/// the device limit (and no token problem) is the device limit.
pub proof fn lemma_backend_message_kinds(status: u16, code: Option<i64>, message: Seq<char>)
    ensures
        contains_seq(ascii_lower_seq(message), "token expired"@) ==> backend_error_kind(status, code, message)
            == ApiErrorKind::InvalidToken,
        contains_seq(ascii_lower_seq(message), "invalid registration token"@) ==> backend_error_kind(
            status,
            code,
            message,
        ) == ApiErrorKind::InvalidToken,
        (contains_seq(ascii_lower_seq(message), "device limit reached"@) && backend_error_kind(
            status,
            code,
            message,
        ) != ApiErrorKind::InvalidToken) ==> backend_error_kind(status, code, message)
            == ApiErrorKind::DeviceLimitReached,
{
}

/// The suggestion shown for each kind of backend failure.
pub open spec fn kind_suggestion(kind: ApiErrorKind) -> Seq<char> {
    match kind {
        ApiErrorKind::InvalidToken =>
            "Run `rtc-agent configure` and save a fresh token, or set RTC_REGISTRATION_TOKEN to a valid value."@,
        ApiErrorKind::DeviceLimitReached =>
            "Release an existing device from the entitlement, or increase the device limit before trying again."@,
        ApiErrorKind::GatewayUnavailable =>
            "Retry in a moment. If you use a proxy, confirm it allows HTTPS and websocket traffic to the backend."@,
        ApiErrorKind::ProxyConfiguration =>
            "Check HTTP_PROXY / HTTPS_PROXY and confirm the proxy allows requests to the backend."@,
        ApiErrorKind::Unauthorized =>
            "Verify the backend environment, service entitlement, and token binding for this agent."@,
        ApiErrorKind::ServerRejected =>
            "Inspect the backend response details and server-side policy for this token or request."@,
        ApiErrorKind::Transport =>
            "Confirm the backend is online and reachable from this machine, then retry."@,
        ApiErrorKind::WebsocketUnavailable =>
            "Verify that the backend websocket endpoint is enabled and that your network path does not block websocket upgrades."@,
        ApiErrorKind::Unexpected =>
            "Retry once. If it keeps failing, capture `rtc-agent verify --json` output for diagnosis."@,
    }
}

fn suggestion_text(kind: ApiErrorKind) -> (r: String)
    ensures
        r@ == kind_suggestion(kind),
{
    match kind {
        ApiErrorKind::InvalidToken => owned(
            "Run `rtc-agent configure` and save a fresh token, or set RTC_REGISTRATION_TOKEN to a valid value.",
        ),
        ApiErrorKind::DeviceLimitReached => owned(
            "Release an existing device from the entitlement, or increase the device limit before trying again.",
        ),
        ApiErrorKind::GatewayUnavailable => owned(
            "Retry in a moment. If you use a proxy, confirm it allows HTTPS and websocket traffic to the backend.",
        ),
        ApiErrorKind::ProxyConfiguration => owned(
            "Check HTTP_PROXY / HTTPS_PROXY and confirm the proxy allows requests to the backend.",
        ),
        ApiErrorKind::Unauthorized => owned(
            "Verify the backend environment, service entitlement, and token binding for this agent.",
        ),
        ApiErrorKind::ServerRejected => owned(
            "Inspect the backend response details and server-side policy for this token or request.",
        ),
        ApiErrorKind::Transport => owned(
            "Confirm the backend is online and reachable from this machine, then retry.",
        ),
        ApiErrorKind::WebsocketUnavailable => owned(
            "Verify that the backend websocket endpoint is enabled and that your network path does not block websocket upgrades.",
        ),
        ApiErrorKind::Unexpected => owned(
            "Retry once. If it keeps failing, capture `rtc-agent verify --json` output for diagnosis.",
        ),
    }
}

/// The suggestion for a backend failure, chosen by its classification.
pub fn suggestion_for_kind(status: u16, code: Option<i64>, message: &str) -> (r: String)
    ensures
        r@ == kind_suggestion(backend_error_kind(status, code, message@)),
{
    suggestion_text(classify_backend_error(status, code, message))
}

/// The message used when the backend gave none: the trimmed body, or `HTTP <status>`.
pub open spec fn fallback_message(status: u16, body: Seq<char>) -> Seq<char> {
    if trim_seq(body).len() == 0 {
        "HTTP "@ + decimal(status as nat)
    } else {
        trim_seq(body)
    }
}

/// The message used when the backend gave none (see `fallback_message`).
pub fn fallback_backend_message(status: u16, body_text: &str) -> (r: String)
    ensures
        r@ == fallback_message(status, body_text@),
{
    let trimmed = trim(body_text);
    if trimmed.as_str().unicode_len() == 0 {
        let mut s = owned("HTTP ");
        let d = decimal_string(status as u64);
        s.append(d.as_str());
        s
    } else {
        trimmed
    }
}

/// The error body of a response: nothing for a blank body, the JSON fields when the body
/// parsed as JSON, else the trimmed body as the message.
pub open spec fn error_body(body: Seq<char>, from_json: Option<(Option<i64>, Option<Seq<char>>)>) -> (
    Option<i64>,
    Option<Seq<char>>,
) {
    if trim_seq(body).len() == 0 {
        (None, None)
    } else {
        match from_json {
            Some(parsed) => parsed,
            None => (None, Some(trim_seq(body))),
        }
    }
}

/// The view of an error body.
pub open spec fn body_view(b: BackendErrorBody) -> (Option<i64>, Option<Seq<char>>) {
    (b.code, opt_view(b.message))
}

/// Reads an error body; `from_json` is what a JSON decoding of the body gave, if it parsed.
pub fn backend_error_body(body_text: &str, from_json: Option<BackendErrorBody>) -> (r:
    BackendErrorBody)
    ensures
        body_view(r) == error_body(
            body_text@,
            match from_json {
                Some(b) => Some(body_view(b)),
                None => None,
            },
        ),
{
    let trimmed = trim(body_text);
    if trimmed.as_str().unicode_len() == 0 {
        return BackendErrorBody { code: None, message: None };
    }
    match from_json {
        Some(b) => b,
        None => BackendErrorBody { code: None, message: Some(trimmed) },
    }
}

/// The message the backend gave when it is not blank, else the fallback message.
pub open spec fn backend_message_of(status: u16, body: Seq<char>, message: Option<Seq<char>>) -> Seq<
    char,
> {
    match message {
        Some(m) => if is_blank_seq(m) {
            fallback_message(status, body)
        } else {
            m
        },
        None => fallback_message(status, body),
    }
}

/// The message shown for each kind of backend failure.
pub open spec fn kind_message(kind: ApiErrorKind, context: Seq<char>, backend_message: Seq<char>) -> Seq<
    char,
> {
    match kind {
        ApiErrorKind::InvalidToken => "Registration token is invalid or has expired."@,
        ApiErrorKind::DeviceLimitReached =>
            "Registration token is valid, but the entitlement has reached its device limit."@,
        ApiErrorKind::GatewayUnavailable => "Backend gateway is temporarily unavailable."@,
        ApiErrorKind::Unauthorized => "Backend rejected the agent credentials for this request."@,
        ApiErrorKind::ProxyConfiguration => "A local proxy or gateway rejected the backend request."@,
        ApiErrorKind::ServerRejected => context + " was rejected by the backend: "@ + backend_message,
        ApiErrorKind::Transport => context + " failed while contacting the backend: "@
            + backend_message,
        ApiErrorKind::WebsocketUnavailable =>
            "Backend returned a websocket endpoint that could not be used."@,
        ApiErrorKind::Unexpected => context + " failed unexpectedly: "@ + backend_message,
    }
}

fn joined3(a: &str, b: &str, c: &str) -> (r: String)
    ensures
        r@ == a@ + b@ + c@,
{
    let mut s = owned(a);
    s.append(b);
    s.append(c);
    s
}

/// Turns a failed backend response into a classified error: the kind follows from the
/// status, the backend code and the backend message (or the fallback message), and the
/// message and suggestion follow from the kind.
pub fn decode_api_error(context: &str, status: u16, body_text: &str, parsed: BackendErrorBody) -> (r:
    ApiError)
    ensures
        ({
            let m = backend_message_of(status, body_text@, opt_view(parsed.message));
            let kind = backend_error_kind(status, parsed.code, m);
            &&& r.kind == kind
            &&& r.status == Some(status)
            &&& r.code == parsed.code
            &&& r.message@ == kind_message(kind, context@, m)
            &&& r.suggestion@ == kind_suggestion(kind)
        }),
{
    let backend_message = match &parsed.message {
        Some(m) => if is_blank(m.as_str()) {
            fallback_backend_message(status, body_text)
        } else {
            owned(m.as_str())
        },
        None => fallback_backend_message(status, body_text),
    };
    let bm = backend_message.as_str();
    let kind = classify_backend_error(status, parsed.code, bm);
    let message = match kind {
        ApiErrorKind::InvalidToken => owned("Registration token is invalid or has expired."),
        ApiErrorKind::DeviceLimitReached => owned(
            "Registration token is valid, but the entitlement has reached its device limit.",
        ),
        ApiErrorKind::GatewayUnavailable => owned("Backend gateway is temporarily unavailable."),
        ApiErrorKind::Unauthorized => owned(
            "Backend rejected the agent credentials for this request.",
        ),
        ApiErrorKind::ProxyConfiguration => owned(
            "A local proxy or gateway rejected the backend request.",
        ),
        ApiErrorKind::ServerRejected => joined3(context, " was rejected by the backend: ", bm),
        ApiErrorKind::Transport => joined3(context, " failed while contacting the backend: ", bm),
        ApiErrorKind::WebsocketUnavailable => owned(
            "Backend returned a websocket endpoint that could not be used.",
        ),
        ApiErrorKind::Unexpected => joined3(context, " failed unexpectedly: ", bm),
    };
    ApiError {
        kind,
        status: Some(status),
        code: parsed.code,
        message,
        suggestion: suggestion_for_kind(status, parsed.code, bm),
    }
}

/// How a transport failure is classified: a proxy problem when the error text mentions a
/// proxy (and it is neither a connect failure nor a timeout), else a transport problem.
pub open spec fn transport_kind(f: TransportFailure) -> ApiErrorKind {
    if f.is_connect || f.is_timeout {
        ApiErrorKind::Transport
    } else if contains_seq(ascii_lower_seq(f.rendered@), "proxy"@) {
        ApiErrorKind::ProxyConfiguration
    } else {
        ApiErrorKind::Transport
    }
}

/// Classifies a transport failure (see `transport_kind`).
pub fn classify_transport_error(failure: &TransportFailure) -> (r: ApiErrorKind)
    ensures
        r == transport_kind(*failure),
{
    if failure.is_connect {
        return ApiErrorKind::Transport;
    }
    if failure.is_timeout {
        return ApiErrorKind::Transport;
    }
    let rendered = ascii_lowercase(failure.rendered.as_str());
    if contains(rendered.as_str(), "proxy") {
        return ApiErrorKind::ProxyConfiguration;
    }
    ApiErrorKind::Transport
}

/// The suggestion for a transport failure.
pub open spec fn transport_suggestion_text(f: TransportFailure) -> Seq<char> {
    if f.is_timeout {
        "The backend did not respond in time. Check connectivity, proxy latency, and server health."@
    } else if contains_seq(ascii_lower_seq(f.rendered@), "proxy"@) {
        "Check HTTP_PROXY / HTTPS_PROXY and confirm the proxy can reach the backend and websocket endpoint."@
    } else {
        "Confirm the backend URL is correct and reachable from this machine, then retry."@
    }
}

/// The suggestion for a transport failure (see `transport_suggestion_text`).
pub fn transport_suggestion(failure: &TransportFailure) -> (r: String)
    ensures
        r@ == transport_suggestion_text(*failure),
{
    if failure.is_timeout {
        return owned(
            "The backend did not respond in time. Check connectivity, proxy latency, and server health.",
        );
    }
    let rendered = ascii_lowercase(failure.rendered.as_str());
    if contains(rendered.as_str(), "proxy") {
        return owned(
            "Check HTTP_PROXY / HTTPS_PROXY and confirm the proxy can reach the backend and websocket endpoint.",
        );
    }
    owned("Confirm the backend URL is correct and reachable from this machine, then retry.")
}

/// The message for a transport failure of a request described by `context`.
pub open spec fn transport_message(f: TransportFailure, context: Seq<char>) -> Seq<char> {
    if f.is_timeout {
        context + " timed out while contacting the backend."@
    } else if f.is_connect {
        context + " could not reach the backend."@
    } else if f.is_request {
        context + " could not be sent to the backend."@
    } else {
        context + " failed before the backend returned a response."@
    }
}

/// Turns a transport failure into a classified error.
pub fn transport_error(context: &str, failure: &TransportFailure) -> (r: ApiError)
    ensures
        r.kind == transport_kind(*failure),
        r.status == failure.status,
        r.code is None,
        r.message@ == transport_message(*failure, context@),
        r.suggestion@ == transport_suggestion_text(*failure),
{
    let message = if failure.is_timeout {
        joined3(context, " timed out while contacting the backend.", "")
    } else if failure.is_connect {
        joined3(context, " could not reach the backend.", "")
    } else if failure.is_request {
        joined3(context, " could not be sent to the backend.", "")
    } else {
        joined3(context, " failed before the backend returned a response.", "")
    };
    proof {
        reveal_strlit("");
    }
    ApiError {
        kind: classify_transport_error(failure),
        status: failure.status,
        code: None,
        message,
        suggestion: transport_suggestion(failure),
    }
}

/// The error raised when the websocket endpoint cannot be reached.
pub open spec fn websocket_unavailable_message(url: Seq<char>) -> Seq<char> {
    "Unable to connect to websocket endpoint `"@ + url + "`."@
}

/// The error raised when the websocket endpoint at `websocket_url` cannot be reached.
pub fn websocket_unavailable(websocket_url: &str) -> (r: ApiError)
    ensures
        r.kind == ApiErrorKind::WebsocketUnavailable,
        r.status is None,
        r.code is None,
        r.message@ == websocket_unavailable_message(websocket_url@),
        r.suggestion@
            == "Check whether the server is reachable, whether your proxy allows websocket traffic, and whether the backend returned a usable websocket URL."@,
{
    ApiError {
        kind: ApiErrorKind::WebsocketUnavailable,
        status: None,
        code: None,
        message: joined3("Unable to connect to websocket endpoint `", websocket_url, "`."),
        suggestion: owned(
            "Check whether the server is reachable, whether your proxy allows websocket traffic, and whether the backend returned a usable websocket URL.",
        ),
    }
}

/// The details of a classified failure; `None` for any other error.
pub fn describe_error(error: &AgentError) -> (r: Option<ApiErrorDetails>)
    ensures
        match error {
            AgentError::Api(e) => r matches Some(d) && d.kind == e.kind && d.status == e.status
                && d.code == e.code && d.message@ == e.message@ && d.suggestion@ == e.suggestion@,
            AgentError::Other(_) => r is None,
        },
{
    match error {
        AgentError::Api(e) => Some(
            ApiErrorDetails {
                kind: e.kind,
                status: e.status,
                code: e.code,
                message: owned(e.message.as_str()),
                suggestion: owned(e.suggestion.as_str()),
            },
        ),
        AgentError::Other(_) => None,
    }
}

/// Failures that mean the agent's credentials were refused.
pub open spec fn is_authentication_kind(kind: ApiErrorKind) -> bool {
    kind == ApiErrorKind::InvalidToken || kind == ApiErrorKind::Unauthorized
}

/// The error is a refusal of the agent's credentials.
pub open spec fn is_authentication_kind_of(error: AgentError) -> bool {
    match error {
        AgentError::Api(e) => is_authentication_kind(e.kind),
        AgentError::Other(_) => false,
    }
}

/// Whether the error is a refusal of the agent's credentials (an invalid token or an
/// unauthorized request); the agent then drops its saved session.
pub fn is_authentication_error(error: &AgentError) -> (r: bool)
    ensures
        r == is_authentication_kind_of(*error),
{
    match describe_error(error) {
        Some(details) => details.kind == ApiErrorKind::InvalidToken || details.kind
            == ApiErrorKind::Unauthorized,
        None => false,
    }
}

/// The message of an error, as it displays.
pub open spec fn error_text(error: AgentError) -> Seq<char> {
    match error {
        AgentError::Api(e) => e.message@,
        AgentError::Other(m) => m@,
    }
}

/// The one-line description the desktop manager shows for an error: message and
/// suggestion for a classified failure, else the error's message.
pub open spec fn user_facing_text(error: AgentError) -> Seq<char> {
    match error {
        AgentError::Api(e) => e.message@ + " | suggestion: "@ + e.suggestion@,
        AgentError::Other(m) => m@,
    }
}

/// The one-line description the desktop manager shows for an error (see
/// `user_facing_text`).
pub fn user_facing_error(error: &AgentError) -> (r: String)
    ensures
        r@ == user_facing_text(*error),
{
    match describe_error(error) {
        Some(d) => joined3(d.message.as_str(), " | suggestion: ", d.suggestion.as_str()),
        None => match error {
            AgentError::Other(m) => owned(m.as_str()),
            AgentError::Api(e) => owned(e.message.as_str()),
        },
    }
}

/// The short label of each kind of failure.
pub open spec fn kind_label(kind: ApiErrorKind) -> Seq<char> {
    match kind {
        ApiErrorKind::InvalidToken => "invalid or expired token"@,
        ApiErrorKind::DeviceLimitReached => "device limit reached"@,
        ApiErrorKind::GatewayUnavailable => "backend gateway unavailable"@,
        ApiErrorKind::ProxyConfiguration => "proxy or gateway issue"@,
        ApiErrorKind::WebsocketUnavailable => "websocket connection unavailable"@,
        ApiErrorKind::Unauthorized => "backend rejected credentials"@,
        ApiErrorKind::ServerRejected => "backend rejected request"@,
        ApiErrorKind::Transport => "network transport issue"@,
        ApiErrorKind::Unexpected => "unexpected error"@,
    }
}

/// The short label shown as the reason of a failed verification.
pub fn user_label_for_error_kind(kind: &ApiErrorKind) -> (r: &'static str)
    ensures
        r@ == kind_label(*kind),
{
    match kind {
        ApiErrorKind::InvalidToken => "invalid or expired token",
        ApiErrorKind::DeviceLimitReached => "device limit reached",
        ApiErrorKind::GatewayUnavailable => "backend gateway unavailable",
        ApiErrorKind::ProxyConfiguration => "proxy or gateway issue",
        ApiErrorKind::WebsocketUnavailable => "websocket connection unavailable",
        ApiErrorKind::Unauthorized => "backend rejected credentials",
        ApiErrorKind::ServerRejected => "backend rejected request",
        ApiErrorKind::Transport => "network transport issue",
        ApiErrorKind::Unexpected => "unexpected error",
    }
}

/// The kebab-case name of each kind, as serialised.
pub open spec fn kind_name(kind: ApiErrorKind) -> Seq<char> {
    match kind {
        ApiErrorKind::InvalidToken => "invalid-token"@,
        ApiErrorKind::DeviceLimitReached => "device-limit-reached"@,
        ApiErrorKind::GatewayUnavailable => "gateway-unavailable"@,
        ApiErrorKind::ProxyConfiguration => "proxy-configuration"@,
        ApiErrorKind::WebsocketUnavailable => "websocket-unavailable"@,
        ApiErrorKind::Unauthorized => "unauthorized"@,
        ApiErrorKind::ServerRejected => "server-rejected"@,
        ApiErrorKind::Transport => "transport"@,
        ApiErrorKind::Unexpected => "unexpected"@,
    }
}

/// The kebab-case name of a kind of failure.
pub fn kind_str(kind: ApiErrorKind) -> (r: &'static str)
    ensures
        r@ == kind_name(kind),
{
    match kind {
        ApiErrorKind::InvalidToken => "invalid-token",
        ApiErrorKind::DeviceLimitReached => "device-limit-reached",
        ApiErrorKind::GatewayUnavailable => "gateway-unavailable",
        ApiErrorKind::ProxyConfiguration => "proxy-configuration",
        ApiErrorKind::WebsocketUnavailable => "websocket-unavailable",
        ApiErrorKind::Unauthorized => "unauthorized",
        ApiErrorKind::ServerRejected => "server-rejected",
        ApiErrorKind::Transport => "transport",
        ApiErrorKind::Unexpected => "unexpected",
    }
}

/// The error part of a failed `verify` report.
#[derive(Debug, Clone)]
pub struct VerifyErrorDetails {
    pub kind: String,
    pub status: Option<u16>,
    pub code: Option<i64>,
    pub message: String,
    pub suggestion: String,
}

/// The error part of a failed `verify` report: the classification when there is one, else
/// an `unexpected` entry with the error's message.
pub fn verify_error_details(error: &AgentError) -> (r: VerifyErrorDetails)
    ensures
        match error {
            AgentError::Api(e) => r.kind@ == kind_name(e.kind) && r.status == e.status && r.code
                == e.code && r.message@ == e.message@ && r.suggestion@ == e.suggestion@,
            AgentError::Other(m) => r.kind@ == "unexpected"@ && r.status is None && r.code is None
                && r.message@ == m@ && r.suggestion@
                == "Retry once. If it still fails, capture the JSON output and inspect the backend and local network path."@,
        },
{
    match describe_error(error) {
        Some(d) => VerifyErrorDetails {
            kind: owned(kind_str(d.kind)),
            status: d.status,
            code: d.code,
            message: d.message,
            suggestion: d.suggestion,
        },
        None => VerifyErrorDetails {
            kind: owned("unexpected"),
            status: None,
            code: None,
            message: match error {
                AgentError::Other(m) => owned(m.as_str()),
                AgentError::Api(e) => owned(e.message.as_str()),
            },
            suggestion: owned(
                "Retry once. If it still fails, capture the JSON output and inspect the backend and local network path.",
            ),
        },
    }
}

/// A response refused with 401 or 403 is always reported as a credentials problem (an
/// invalid token or refused credentials) unless its message names the device limit.
pub proof fn lemma_refusals_are_authentication_failures(status: u16, code: Option<i64>, m: Seq<char>)
    requires
        status == 401 || status == 403,
        backend_error_kind(status, code, m) != ApiErrorKind::DeviceLimitReached,
    ensures
        is_authentication_kind(backend_error_kind(status, code, m)),
{
}

/// A message about an invalid or expired registration token is reported as such whatever
/// the status, so the agent always drops its saved session for it.
pub proof fn lemma_token_messages_win(status: u16, code: Option<i64>, m: Seq<char>)
    requires
        contains_seq(ascii_lower_seq(m), "invalid registration token"@) || contains_seq(
            ascii_lower_seq(m),
            "token expired"@,
        ),
    ensures
        backend_error_kind(status, code, m) == ApiErrorKind::InvalidToken,
        is_authentication_kind(backend_error_kind(status, code, m)),
{
}

/// Backend responses are never classified as websocket failures: that kind is kept for
/// websocket endpoints that could not be used.
pub proof fn lemma_backend_errors_are_not_websocket_errors(status: u16, code: Option<i64>, m: Seq<char>)
    ensures
        backend_error_kind(status, code, m) != ApiErrorKind::WebsocketUnavailable,
{
}

} // verus!
