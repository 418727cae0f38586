//! The desktop manager's view of its background agent: the phases the agent goes through,
//! how each runtime event changes what is shown, the retry schedule, the status line, and
//! the bounded log it keeps.
use vstd::prelude::*;

use std::collections::VecDeque;

use crate::errors::{user_facing_error, user_facing_text, AgentError};

use crate::config::{flag_enabled, flag_on, normalize_template_string, normalized_token, opt_view};
use crate::text::{
    ascii_lower_seq, ascii_lowercase, contains, contains_seq, decimal, decimal_string, owned,
    parse_u64, parsed_u64, str_eq, trim, trim_seq,
};

verus! {

/// The phases of the desktop background agent.
#[derive(Debug, Clone, Copy, PartialEq, Eq, Structural)]
pub enum DesktopRuntimePhase {
    Idle,
    WaitingConfig,
    Starting,
    Registering,
    Online,
    Reconnecting,
    Stopped,
    Error,
}

/// What the desktop manager shows of its background agent.
#[derive(Debug, Clone)]
pub struct DesktopRuntimeSnapshot {
    pub phase: DesktopRuntimePhase,
    pub connected: bool,
    pub registered_device_id: Option<String>,
    pub websocket_url: Option<String>,
    pub last_heartbeat_at: Option<String>,
    pub last_error: Option<String>,
    pub retry_attempt: u32,
}

/// The mathematical content of a snapshot.
pub struct SnapshotView {
    pub phase: DesktopRuntimePhase,
    pub connected: bool,
    pub registered_device_id: Option<Seq<char>>,
    pub websocket_url: Option<Seq<char>>,
    pub last_heartbeat_at: Option<Seq<char>>,
    pub last_error: Option<Seq<char>>,
    pub retry_attempt: u32,
}

impl View for DesktopRuntimeSnapshot {
    type V = SnapshotView;

    open spec fn view(&self) -> SnapshotView {
        SnapshotView {
            phase: self.phase,
            connected: self.connected,
            registered_device_id: opt_view(self.registered_device_id),
            websocket_url: opt_view(self.websocket_url),
            last_heartbeat_at: opt_view(self.last_heartbeat_at),
            last_error: opt_view(self.last_error),
            retry_attempt: self.retry_attempt,
        }
    }
}

/// The snapshot before the agent was ever started: idle, disconnected, nothing known.
pub open spec fn initial_snapshot() -> SnapshotView {
    SnapshotView {
        phase: DesktopRuntimePhase::Idle,
        connected: false,
        registered_device_id: None,
        websocket_url: None,
        last_heartbeat_at: None,
        last_error: None,
        retry_attempt: 0,
    }
}

impl Default for DesktopRuntimeSnapshot {
    fn default() -> (r: Self)
        ensures
            r@ == initial_snapshot(),
    {
        DesktopRuntimeSnapshot {
            phase: DesktopRuntimePhase::Idle,
            connected: false,
            registered_device_id: None,
            websocket_url: None,
            last_heartbeat_at: None,
            last_error: None,
            retry_attempt: 0,
        }
    }
}

/// The background tasks of a running agent.
#[derive(Debug, Clone, Copy, PartialEq, Eq, Structural)]
pub enum TaskSignal {
    Heartbeat,
    Tunnel,
    Watchdog,
}

/// How each background task is named in messages.
pub open spec fn signal_label(signal: TaskSignal) -> Seq<char> {
    match signal {
        TaskSignal::Heartbeat => "Heartbeat loop"@,
        TaskSignal::Tunnel => "WebSocket tunnel"@,
        TaskSignal::Watchdog => "Heartbeat watchdog"@,
    }
}

/// The name of a background task in messages.
pub fn task_signal_label(signal: TaskSignal) -> (r: &'static str)
    ensures
        r@ == signal_label(signal),
{
    match signal {
        TaskSignal::Heartbeat => "Heartbeat loop",
        TaskSignal::Tunnel => "WebSocket tunnel",
        TaskSignal::Watchdog => "Heartbeat watchdog",
    }
}

/// The pause between runtime retries, in seconds, before it grows.
pub const RUNTIME_RETRY_INTERVAL_SECS: u64 = 10;

/// The longest pause between runtime retries, in seconds.
pub const MAX_RETRY_INTERVAL_SECS: u64 = 90;

/// How long configuration problems wait before the next attempt, in seconds.
pub const MISSING_CONFIG_RETRY_SECS: u64 = 30;

/// How old the last heartbeat may be before the connection counts as stale, in seconds.
pub const HEARTBEAT_STALE_TIMEOUT_SECS: u64 = 75;

/// Two to the power `n`.
pub open spec fn two_to(n: nat) -> nat
    decreases n,
{
    if n == 0 {
        1
    } else {
        2 * two_to((n - 1) as nat)
    }
}

/// The pause before retry number `attempt`: ten seconds doubled once per attempt (at most
/// six doublings), never more than ninety seconds.
pub open spec fn retry_delay_secs(attempt: u32) -> nat {
    let capped: nat = if attempt < 6 {
        attempt as nat
    } else {
        6
    };
    let grown: nat = (RUNTIME_RETRY_INTERVAL_SECS as nat) * two_to(capped);
    if grown < MAX_RETRY_INTERVAL_SECS {
        grown
    } else {
        MAX_RETRY_INTERVAL_SECS as nat
    }
}

/// The pause in seconds before retry number `retry_attempt` (see `retry_delay_secs`).
pub fn compute_retry_delay(retry_attempt: u32) -> (r: u64)
    ensures
        r == retry_delay_secs(retry_attempt),
        r <= MAX_RETRY_INTERVAL_SECS,
{
    let capped: u32 = if retry_attempt < 6 {
        retry_attempt
    } else {
        6
    };
    let mut scale: u64 = 1;
    let mut i: u32 = 0;
    while i < capped
        invariant
            i <= capped,
            capped <= 6,
            scale == two_to(i as nat),
            scale <= 64,
        decreases capped - i,
    {
        assert(two_to((i + 1) as nat) == 2 * two_to(i as nat));
        proof {
            if i < 6 {
                assert(two_to(0) == 1);
                assert(two_to(1) == 2);
                assert(two_to(2) == 4);
                assert(two_to(3) == 8);
                assert(two_to(4) == 16);
                assert(two_to(5) == 32);
                assert(two_to(6) == 64);
            }
        }
        scale = scale * 2;
        i = i + 1;
    }
    let secs = RUNTIME_RETRY_INTERVAL_SECS * scale;
    if secs < MAX_RETRY_INTERVAL_SECS {
        secs
    } else {
        MAX_RETRY_INTERVAL_SECS
    }
}

/// The pause before a retry never shrinks as attempts accumulate.
pub proof fn lemma_retry_delay_grows(a: u32, b: u32)
    requires
        a <= b,
    ensures
        retry_delay_secs(a) <= retry_delay_secs(b),
        retry_delay_secs(b) <= MAX_RETRY_INTERVAL_SECS,
{
    let ca: nat = if a < 6 {
        a as nat
    } else {
        6
    };
    let cb: nat = if b < 6 {
        b as nat
    } else {
        6
    };
    lemma_two_to_grows(ca, cb);
}

proof fn lemma_two_to_grows(a: nat, b: nat)
    requires
        a <= b,
    ensures
        two_to(a) <= two_to(b),
    decreases b,
{
    if a < b {
        lemma_two_to_grows(a, (b - 1) as nat);
    }
}

/// The status line for the background agent (the phrases are the manager's own, mostly
/// Chinese). Online and connected: online, with the device id when known. Registering or
/// starting: registering. Reconnecting: the attempt (at least one) and the last error or
/// a pointer to the log. Waiting for configuration: waiting for a token. Stopped: stopped,
/// or that a token is needed. Error: the last error or a generic error line. Idle: started
/// and waiting, ready, or that a token is needed. Online but not connected: waiting for the
/// connection state.
pub open spec fn status_summary(runtime: SnapshotView, running: bool, has_token: bool) -> Seq<char> {
    match runtime.phase {
        DesktopRuntimePhase::Online => if runtime.connected {
            match runtime.registered_device_id {
                Some(id) => "Agent 已在线，设备 ID: "@ + id + "。心跳与隧道连接正常。"@,
                None => "Agent 已在线，心跳与隧道连接正常。"@,
            }
        } else {
            "Agent 已运行，正在等待最新连接状态。"@
        },
        DesktopRuntimePhase::Registering | DesktopRuntimePhase::Starting =>
            "Agent 正在注册并建立隧道连接，请查看下方日志。"@,
        DesktopRuntimePhase::Reconnecting => "Agent 连接已中断，正在自动重连（第 "@ + decimal(
            (if runtime.retry_attempt < 1 {
                1
            } else {
                runtime.retry_attempt
            }) as nat,
        ) + " 次）。"@ + match runtime.last_error {
            Some(e) => e,
            None => "请查看日志面板。"@,
        },
        DesktopRuntimePhase::WaitingConfig => "等待配置 Token。保存后桌面端会自动重试注册。"@,
        DesktopRuntimePhase::Stopped => if has_token {
            "后台 Agent 已停止，可随时重新启动。"@
        } else {
            "Token 是启动后台 Agent 的前提条件。"@
        },
        DesktopRuntimePhase::Error => match runtime.last_error {
            Some(e) => e,
            None => "后台 Agent 遇到错误，请查看日志。"@,
        },
        DesktopRuntimePhase::Idle => if running {
            "Agent 进程已启动，正在等待连接状态更新。"@
        } else if has_token {
            "Ready to start in tray background mode."@
        } else {
            "Token is required before the background agent can start."@
        },
    }
}

fn copy_opt(o: &Option<String>) -> (r: Option<String>)
    ensures
        opt_view(r) == opt_view(*o),
{
    match o {
        Some(s) => Some(owned(s.as_str())),
        None => None,
    }
}

/// The status line shown for the background agent (see `status_summary`).
pub fn runtime_status_summary(runtime: &DesktopRuntimeSnapshot, running: bool, has_token: bool) -> (r:
    String)
    ensures
        r@ == status_summary(runtime@, running, has_token),
{
    match runtime.phase {
        DesktopRuntimePhase::Online => {
            if runtime.connected {
                match &runtime.registered_device_id {
                    Some(id) => {
                        let mut s = owned("Agent 已在线，设备 ID: ");
                        s.append(id.as_str());
                        s.append("。心跳与隧道连接正常。");
                        s
                    },
                    None => owned("Agent 已在线，心跳与隧道连接正常。"),
                }
            } else {
                owned("Agent 已运行，正在等待最新连接状态。")
            }
        },
        DesktopRuntimePhase::Registering | DesktopRuntimePhase::Starting => owned(
            "Agent 正在注册并建立隧道连接，请查看下方日志。",
        ),
        DesktopRuntimePhase::Reconnecting => {
            let attempt: u32 = if runtime.retry_attempt < 1 {
                1
            } else {
                runtime.retry_attempt
            };
            let mut s = owned("Agent 连接已中断，正在自动重连（第 ");
            let n = decimal_string(attempt as u64);
            s.append(n.as_str());
            s.append(" 次）。");
            match &runtime.last_error {
                Some(e) => s.append(e.as_str()),
                None => s.append("请查看日志面板。"),
            }
            s
        },
        DesktopRuntimePhase::WaitingConfig => owned("等待配置 Token。保存后桌面端会自动重试注册。"),
        DesktopRuntimePhase::Stopped => if has_token {
            owned("后台 Agent 已停止，可随时重新启动。")
        } else {
            owned("Token 是启动后台 Agent 的前提条件。")
        },
        DesktopRuntimePhase::Error => match &runtime.last_error {
            Some(e) => owned(e.as_str()),
            None => owned("后台 Agent 遇到错误，请查看日志。"),
        },
        DesktopRuntimePhase::Idle => if running {
            owned("Agent 进程已启动，正在等待连接状态更新。")
        } else if has_token {
            owned("Ready to start in tray background mode.")
        } else {
            owned("Token is required before the background agent can start.")
        },
    }
}

/// What happens to the background agent, as the manager learns of it.
#[derive(Debug, Clone)]
pub enum RuntimeEvent {
    /// The user stopped the agent.
    Stopped,
    /// The user started the agent.
    Starting,
    /// The supervisor found that the agent should no longer run.
    SupervisorExited,
    /// A run begins by registering.
    Registering,
    /// No registration token is configured yet.
    WaitingForConfig,
    /// Registration failed with the given message.
    RegistrationFailed(String),
    /// The backend registered the agent under the given device id.
    Registered(String),
    /// A heartbeat succeeded at the given time.
    HeartbeatSucceeded(String),
    /// The tunnel connected to the given websocket URL.
    TunnelConnected(String),
    /// A background task ended although it should run forever.
    TaskEnded(TaskSignal),
    /// A background task failed with the given message.
    TaskFailed(String),
    /// A background task could not be joined, with the given message.
    TaskAborted(String),
    /// A failed run will be retried; the attempt number and the error shown.
    RetryScheduled(u32, String),
}

/// The message shown when a background task ended on its own.
pub open spec fn task_ended_message(signal: TaskSignal) -> Seq<char> {
    signal_label(signal) + " disconnected. Reconnecting to the backend."@
}

/// How each event changes the snapshot; fields an event does not name are kept.
pub open spec fn after_event(s: SnapshotView, e: RuntimeEvent) -> SnapshotView {
    match e {
        RuntimeEvent::Stopped => SnapshotView {
            phase: DesktopRuntimePhase::Stopped,
            connected: false,
            last_error: None,
            websocket_url: None,
            ..s
        },
        RuntimeEvent::Starting => SnapshotView {
            phase: DesktopRuntimePhase::Starting,
            last_error: None,
            retry_attempt: 0,
            ..s
        },
        RuntimeEvent::SupervisorExited => SnapshotView {
            phase: DesktopRuntimePhase::Stopped,
            connected: false,
            websocket_url: None,
            ..s
        },
        RuntimeEvent::Registering => SnapshotView {
            phase: DesktopRuntimePhase::Registering,
            connected: false,
            last_error: None,
            websocket_url: None,
            ..s
        },
        RuntimeEvent::WaitingForConfig => SnapshotView {
            phase: DesktopRuntimePhase::WaitingConfig,
            connected: false,
            last_error: None,
            ..s
        },
        RuntimeEvent::RegistrationFailed(m) => SnapshotView {
            phase: DesktopRuntimePhase::Error,
            connected: false,
            last_error: Some(m@),
            ..s
        },
        RuntimeEvent::Registered(id) => SnapshotView {
            phase: DesktopRuntimePhase::Online,
            connected: false,
            registered_device_id: Some(id@),
            retry_attempt: 0,
            last_error: None,
            ..s
        },
        RuntimeEvent::HeartbeatSucceeded(at) => SnapshotView {
            last_heartbeat_at: Some(at@),
            retry_attempt: 0,
            connected: true,
            phase: if s.websocket_url is Some {
                DesktopRuntimePhase::Online
            } else {
                s.phase
            },
            ..s
        },
        RuntimeEvent::TunnelConnected(url) => SnapshotView {
            connected: true,
            phase: DesktopRuntimePhase::Online,
            websocket_url: Some(url@),
            last_error: None,
            ..s
        },
        RuntimeEvent::TaskEnded(signal) => SnapshotView {
            connected: false,
            websocket_url: None,
            phase: DesktopRuntimePhase::Reconnecting,
            last_error: Some(task_ended_message(signal)),
            ..s
        },
        RuntimeEvent::TaskFailed(m) => SnapshotView {
            connected: false,
            websocket_url: None,
            phase: DesktopRuntimePhase::Reconnecting,
            last_error: Some(m@),
            ..s
        },
        RuntimeEvent::TaskAborted(m) => SnapshotView {
            connected: false,
            websocket_url: None,
            phase: DesktopRuntimePhase::Error,
            last_error: Some(m@),
            ..s
        },
        RuntimeEvent::RetryScheduled(attempt, m) => SnapshotView {
            phase: DesktopRuntimePhase::Reconnecting,
            connected: false,
            last_error: Some(m@),
            retry_attempt: attempt,
            websocket_url: None,
            ..s
        },
    }
}

/// Applies a runtime event to the snapshot (see `after_event`).
pub fn apply_runtime_event(snapshot: &mut DesktopRuntimeSnapshot, event: RuntimeEvent)
    ensures
        final(snapshot)@ == after_event(old(snapshot)@, event),
{
    match event {
        RuntimeEvent::Stopped => {
            snapshot.phase = DesktopRuntimePhase::Stopped;
            snapshot.connected = false;
            snapshot.last_error = None;
            snapshot.websocket_url = None;
        },
        RuntimeEvent::Starting => {
            snapshot.phase = DesktopRuntimePhase::Starting;
            snapshot.last_error = None;
            snapshot.retry_attempt = 0;
        },
        RuntimeEvent::SupervisorExited => {
            snapshot.phase = DesktopRuntimePhase::Stopped;
            snapshot.connected = false;
            snapshot.websocket_url = None;
        },
        RuntimeEvent::Registering => {
            snapshot.phase = DesktopRuntimePhase::Registering;
            snapshot.connected = false;
            snapshot.last_error = None;
            snapshot.websocket_url = None;
        },
        RuntimeEvent::WaitingForConfig => {
            snapshot.phase = DesktopRuntimePhase::WaitingConfig;
            snapshot.connected = false;
            snapshot.last_error = None;
        },
        RuntimeEvent::RegistrationFailed(m) => {
            snapshot.phase = DesktopRuntimePhase::Error;
            snapshot.connected = false;
            snapshot.last_error = Some(m);
        },
        RuntimeEvent::Registered(id) => {
            snapshot.phase = DesktopRuntimePhase::Online;
            snapshot.connected = false;
            snapshot.registered_device_id = Some(id);
            snapshot.retry_attempt = 0;
            snapshot.last_error = None;
        },
        RuntimeEvent::HeartbeatSucceeded(at) => {
            snapshot.last_heartbeat_at = Some(at);
            snapshot.retry_attempt = 0;
            snapshot.connected = true;
            if snapshot.websocket_url.is_some() {
                snapshot.phase = DesktopRuntimePhase::Online;
            }
        },
        RuntimeEvent::TunnelConnected(url) => {
            snapshot.connected = true;
            snapshot.phase = DesktopRuntimePhase::Online;
            snapshot.websocket_url = Some(url);
            snapshot.last_error = None;
        },
        RuntimeEvent::TaskEnded(signal) => {
            let mut m = owned(task_signal_label(signal));
            m.append(" disconnected. Reconnecting to the backend.");
            snapshot.connected = false;
            snapshot.websocket_url = None;
            snapshot.phase = DesktopRuntimePhase::Reconnecting;
            snapshot.last_error = Some(m);
        },
        RuntimeEvent::TaskFailed(m) => {
            snapshot.connected = false;
            snapshot.websocket_url = None;
            snapshot.phase = DesktopRuntimePhase::Reconnecting;
            snapshot.last_error = Some(m);
        },
        RuntimeEvent::TaskAborted(m) => {
            snapshot.connected = false;
            snapshot.websocket_url = None;
            snapshot.phase = DesktopRuntimePhase::Error;
            snapshot.last_error = Some(m);
        },
        RuntimeEvent::RetryScheduled(attempt, m) => {
            snapshot.phase = DesktopRuntimePhase::Reconnecting;
            snapshot.connected = false;
            snapshot.last_error = Some(m);
            snapshot.retry_attempt = attempt;
            snapshot.websocket_url = None;
        },
    }
}

/// When the supervisor loop ends: stopped unless the agent should still run, and
/// disconnected without a websocket in any case.
pub open spec fn after_supervisor_finished(s: SnapshotView, desired_running: bool) -> SnapshotView {
    SnapshotView {
        phase: if !desired_running {
            DesktopRuntimePhase::Stopped
        } else {
            s.phase
        },
        connected: false,
        websocket_url: None,
        ..s
    }
}

/// Records the end of the supervisor loop (see `after_supervisor_finished`).
pub fn finish_supervisor(snapshot: &mut DesktopRuntimeSnapshot, desired_running: bool)
    ensures
        final(snapshot)@ == after_supervisor_finished(old(snapshot)@, desired_running),
{
    if !desired_running {
        snapshot.phase = DesktopRuntimePhase::Stopped;
    }
    snapshot.connected = false;
    snapshot.websocket_url = None;
}

/// An agent that should run but has no task and never left the idle phase is shown as
/// stopped; anything else is kept.
pub open spec fn reconciled_phase(phase: DesktopRuntimePhase, task_running: bool, desired_running: bool) -> DesktopRuntimePhase {
    if !task_running && desired_running && phase == DesktopRuntimePhase::Idle {
        DesktopRuntimePhase::Stopped
    } else {
        phase
    }
}

/// Brings the shown phase in line with the supervisor (see `reconciled_phase`).
pub fn reconcile_agent_state(snapshot: &mut DesktopRuntimeSnapshot, task_running: bool, desired_running: bool)
    ensures
        final(snapshot)@ == (SnapshotView {
            phase: reconciled_phase(old(snapshot).phase, task_running, desired_running),
            ..old(snapshot)@
        }),
{
    if !task_running && desired_running && snapshot.phase == DesktopRuntimePhase::Idle {
        snapshot.phase = DesktopRuntimePhase::Stopped;
    }
}

/// Stopping always leaves the agent stopped, disconnected, without a websocket and
/// without an error, whatever it was doing.
pub proof fn lemma_stop_disconnects(s: SnapshotView)
    ensures
        after_event(s, RuntimeEvent::Stopped).phase == DesktopRuntimePhase::Stopped,
        !after_event(s, RuntimeEvent::Stopped).connected,
        (after_event(s, RuntimeEvent::Stopped).websocket_url is None),
        (after_event(s, RuntimeEvent::Stopped).last_error is None),
{
}

/// Every failure leaves the agent disconnected and without a websocket, and shows an
/// error; only a successful heartbeat or a tunnel connection connects it.
pub proof fn lemma_connected_only_by_success(s: SnapshotView, e: RuntimeEvent)
    ensures
        after_event(s, e).connected ==> (e is HeartbeatSucceeded || e is TunnelConnected || (
        s.connected && (e is Starting))),
        (e is TaskEnded || e is TaskFailed || e is TaskAborted || e is RetryScheduled || e is RegistrationFailed)
            ==> !after_event(s, e).connected && after_event(s, e).last_error is Some,
{
}

/// A successful registration always clears the retry count and the last error.
pub proof fn lemma_registration_resets_retries(s: SnapshotView, id: String)
    ensures
        after_event(s, RuntimeEvent::Registered(id)).retry_attempt == 0,
        (after_event(s, RuntimeEvent::Registered(id)).last_error is None),
        after_event(s, RuntimeEvent::Registered(id)).registered_device_id == Some(id@),
{
}

/// The background service's status message says it runs (and is not merely about to
/// start or stop).
pub open spec fn service_running_text(message: Seq<char>) -> bool {
    contains_seq(ascii_lower_seq(message), "running"@) && !contains_seq(
        ascii_lower_seq(message),
        "pending"@,
    )
}

/// Whether the background service appears to be active (see `service_running_text`).
pub fn looks_like_service_running(message: &str) -> (r: bool)
    ensures
        r == service_running_text(message@),
{
    let text = ascii_lowercase(message);
    contains(text.as_str(), "running") && !contains(text.as_str(), "pending")
}

/// Whether a registration token is saved: one in the environment (normalised), or one in
/// the configuration file.
pub fn has_saved_registration_token(env_token: Option<String>, file_token: &Option<String>) -> (r:
    bool)
    ensures
        r == (normalized_token(opt_view(env_token)) is Some || file_token is Some),
{
    normalize_template_string(env_token).is_some() || file_token.is_some()
}

/// Onboarding is shown when it is forced (`RTC_AGENT_DESKTOP_FORCE_ONBOARDING` switched on),
/// when no token is saved, or when it was never completed.
pub fn onboarding_required(force_flag: &Option<String>, has_token: bool, onboarding_completed: bool) -> (r: bool)
    ensures
        r == (flag_on(opt_view(*force_flag)) || !has_token || !onboarding_completed),
{
    if flag_enabled(force_flag) {
        return true;
    }
    if !has_token {
        return true;
    }
    !onboarding_completed
}

/// Whether a token is available and where it comes from: the environment first (when it
/// normalises to a token), then the configuration file.
pub open spec fn token_source(env_token: Option<Seq<char>>, file_has_token: bool) -> (bool, Seq<char>) {
    if normalized_token(env_token) is Some {
        (true, "environment variable RTC_REGISTRATION_TOKEN"@)
    } else if file_has_token {
        (true, "config file"@)
    } else {
        (false, "none"@)
    }
}

/// Whether a token is available, and from where (see `token_source`).
pub fn token_state(env_token: Option<String>, file_token: &Option<String>) -> (r: (bool, String))
    ensures
        (r.0, r.1@) == token_source(opt_view(env_token), file_token is Some),
{
    if normalize_template_string(env_token).is_some() {
        return (true, owned("environment variable RTC_REGISTRATION_TOKEN"));
    }
    if file_token.is_some() {
        return (true, owned("config file"));
    }
    (false, owned("none"))
}

/// A token entered by the user, trimmed; a blank token is refused.
pub fn validate_token(token: &str) -> (r: Result<String, String>)
    ensures
        trim_seq(token@).len() == 0 ==> (r matches Err(e) && e@ == "Token cannot be empty."@),
        trim_seq(token@).len() > 0 ==> (r matches Ok(t) && t@ == trim_seq(token@)),
{
    let t = trim(token);
    if t.as_str().unicode_len() == 0 {
        Err(owned("Token cannot be empty."))
    } else {
        Ok(t)
    }
}

/// The actions the manager's window can ask of the background agent.
#[derive(Debug, Clone, Copy, PartialEq, Eq, Structural)]
pub enum DesktopAgentAction {
    Start,
    Stop,
    Restart,
    Status,
}

/// The action a request names, trimmed and case-insensitive.
pub open spec fn agent_action_named(normalized: Seq<char>) -> Option<DesktopAgentAction> {
    if normalized == "start"@ {
        Some(DesktopAgentAction::Start)
    } else if normalized == "stop"@ {
        Some(DesktopAgentAction::Stop)
    } else if normalized == "restart"@ {
        Some(DesktopAgentAction::Restart)
    } else if normalized == "status"@ {
        Some(DesktopAgentAction::Status)
    } else {
        None
    }
}

/// Reads the action a request names; any other name is refused with
/// `Unsupported desktop agent action: <name>` (the name trimmed and lower-cased).
pub fn parse_desktop_agent_action(action: &str) -> (r: Result<DesktopAgentAction, String>)
    ensures
        match agent_action_named(ascii_lower_seq(trim_seq(action@))) {
            Some(a) => r == Ok::<DesktopAgentAction, String>(a),
            None => (r matches Err(e) && e@ == "Unsupported desktop agent action: "@
                + ascii_lower_seq(trim_seq(action@))),
        },
{
    let t = trim(action);
    let n = ascii_lowercase(t.as_str());
    let s = n.as_str();
    if str_eq(s, "start") {
        Ok(DesktopAgentAction::Start)
    } else if str_eq(s, "stop") {
        Ok(DesktopAgentAction::Stop)
    } else if str_eq(s, "restart") {
        Ok(DesktopAgentAction::Restart)
    } else if str_eq(s, "status") {
        Ok(DesktopAgentAction::Status)
    } else {
        let mut e = owned("Unsupported desktop agent action: ");
        e.append(s);
        Err(e)
    }
}

/// The message reported after each action.
pub open spec fn agent_action_message(a: DesktopAgentAction) -> Seq<char> {
    match a {
        DesktopAgentAction::Start =>
            "Agent process started. Registration is still in progress; check the log panel for `registered device` or backend errors."@,
        DesktopAgentAction::Stop => "Desktop background agent has been stopped."@,
        DesktopAgentAction::Restart =>
            "Agent process restarted. Registration is still in progress; check the log panel for `registered device` or backend errors."@,
        DesktopAgentAction::Status => "Desktop background agent state refreshed."@,
    }
}

/// The name and the message reported after an action.
pub fn desktop_agent_action_outcome(action: DesktopAgentAction) -> (r: (&'static str, &'static str))
    ensures
        r.0@ == match action {
            DesktopAgentAction::Start => "start"@,
            DesktopAgentAction::Stop => "stop"@,
            DesktopAgentAction::Restart => "restart"@,
            DesktopAgentAction::Status => "status"@,
        },
        r.1@ == agent_action_message(action),
{
    match action {
        DesktopAgentAction::Start => (
            "start",
            "Agent process started. Registration is still in progress; check the log panel for `registered device` or backend errors.",
        ),
        DesktopAgentAction::Stop => ("stop", "Desktop background agent has been stopped."),
        DesktopAgentAction::Restart => (
            "restart",
            "Agent process restarted. Registration is still in progress; check the log panel for `registered device` or backend errors.",
        ),
        DesktopAgentAction::Status => ("status", "Desktop background agent state refreshed."),
    }
}

/// The message reported after autostart was switched on or off.
pub fn autostart_message(enabled: bool) -> (r: &'static str)
    ensures
        r@ == if enabled {
            "Desktop manager will now start automatically when this user signs in."@
        } else {
            "Desktop manager autostart has been disabled for this user."@
        },
{
    if enabled {
        "Desktop manager will now start automatically when this user signs in."
    } else {
        "Desktop manager autostart has been disabled for this user."
    }
}

/// A line of the agent's output as the manager shows it.
#[derive(Debug, Clone)]
pub struct AgentLogEntry {
    pub stream: String,
    pub line: String,
}

/// The most lines the manager keeps.
pub const MAX_LOG_ENTRIES: usize = 300;

/// The lines kept of a history: the last `MAX_LOG_ENTRIES` of them.
pub open spec fn kept_logs(history: Seq<(Seq<char>, Seq<char>)>) -> Seq<(Seq<char>, Seq<char>)> {
    if history.len() > MAX_LOG_ENTRIES {
        history.skip(history.len() - MAX_LOG_ENTRIES)
    } else {
        history
    }
}

/// The views of log lines as stream and text.
pub open spec fn log_view(v: Seq<AgentLogEntry>) -> Seq<(Seq<char>, Seq<char>)> {
    v.map_values(|e: AgentLogEntry| (e.stream@, e.line@))
}

/// The recent output of the background agent, oldest first, bounded in length.
#[derive(Debug)]
pub struct LogBuffer {
    entries: VecDeque<AgentLogEntry>,
}

impl View for LogBuffer {
    type V = Seq<(Seq<char>, Seq<char>)>;

    closed spec fn view(&self) -> Seq<(Seq<char>, Seq<char>)> {
        log_view(self.entries@)
    }
}

impl LogBuffer {
    /// An empty log.
    pub fn new() -> (r: Self)
        ensures
            r@ == Seq::<(Seq<char>, Seq<char>)>::empty(),
    {
        let r = LogBuffer { entries: VecDeque::new() };
        assert(log_view(r.entries@) =~= Seq::<(Seq<char>, Seq<char>)>::empty());
        r
    }

    /// Appends a line and drops the oldest lines beyond `MAX_LOG_ENTRIES`.
    pub fn push(&mut self, entry: AgentLogEntry)
        ensures
            final(self)@ == kept_logs(old(self)@.push((entry.stream@, entry.line@))),
    {
        let ghost grown = self@.push((entry.stream@, entry.line@));
        let ghost e = (entry.stream@, entry.line@);
        let ghost before = self.entries@;
        self.entries.push_back(entry);
        assert(log_view(self.entries@) =~= log_view(before).push(e));
        let ghost mut dropped: int = 0;
        while self.entries.len() > MAX_LOG_ENTRIES
            invariant
                0 <= dropped <= grown.len(),
                log_view(self.entries@) == grown.skip(dropped),
                dropped > 0 ==> grown.len() - dropped >= MAX_LOG_ENTRIES,
            decreases self.entries@.len(),
        {
            let ghost cur = self.entries@;
            let _oldest = self.entries.pop_front();
            assert(log_view(self.entries@) =~= log_view(cur).drop_first());
            assert(grown.skip(dropped).drop_first() =~= grown.skip(dropped + 1));
            proof {
                dropped = dropped + 1;
            }
        }
        proof {
            if grown.len() > MAX_LOG_ENTRIES {
                assert(dropped == grown.len() - MAX_LOG_ENTRIES);
            } else {
                assert(dropped == 0);
                assert(grown.skip(0) =~= grown);
            }
        }
    }

    /// A copy of the kept lines, oldest first.
    pub fn entries(&self) -> (r: Vec<AgentLogEntry>)
        ensures
            log_view(r@) == self@,
    {
        let mut out: Vec<AgentLogEntry> = Vec::new();
        let mut i: usize = 0;
        while i < self.entries.len()
            invariant
                i <= self.entries@.len(),
                log_view(out@) =~= log_view(self.entries@.take(i as int)),
            decreases self.entries@.len() - i,
        {
            let e = AgentLogEntry {
                stream: owned(self.entries[i].stream.as_str()),
                line: owned(self.entries[i].line.as_str()),
            };
            let ghost before = out@;
            out.push(e);
            assert(log_view(out@) =~= log_view(before).push((e.stream@, e.line@)));
            assert(self.entries@.take(i + 1) =~= self.entries@.take(i as int).push(
                self.entries@[i as int],
            ));
            i = i + 1;
        }
        assert(self.entries@.take(self.entries@.len() as int) =~= self.entries@);
        out
    }
}

/// However many lines were pushed, the log holds exactly the last `MAX_LOG_ENTRIES` of
/// all of them: trimming after each push is trimming the whole history once.
pub proof fn lemma_logs_keep_latest(
    history: Seq<(Seq<char>, Seq<char>)>,
    entry: (Seq<char>, Seq<char>),
)
    ensures
        kept_logs(kept_logs(history).push(entry)) == kept_logs(history.push(entry)),
        kept_logs(history).len() <= MAX_LOG_ENTRIES,
{
    let k = kept_logs(history);
    if history.len() > MAX_LOG_ENTRIES {
        assert(k.push(entry).len() == MAX_LOG_ENTRIES + 1);
        assert(kept_logs(k.push(entry)) =~= kept_logs(history.push(entry)));
    } else {
        assert(k =~= history);
    }
}

/// How long ago a heartbeat recorded as Unix seconds happened, seen at `now` (never
/// negative); nothing when the record is not a number.
pub open spec fn heartbeat_age(recorded: Seq<char>, now: u64) -> Option<u64> {
    match parsed_u64(trim_seq(recorded)) {
        Some(then) => Some(
            if now >= then {
                (now - then) as u64
            } else {
                0
            },
        ),
        None => None,
    }
}

/// The age of a heartbeat time stamp at `now_secs` (see `heartbeat_age`).
pub fn seconds_since(recorded: &str, now_secs: u64) -> (r: Option<u64>)
    ensures
        r == heartbeat_age(recorded@, now_secs),
{
    let t = trim(recorded);
    match parse_u64(t.as_str()) {
        Some(then) => Some(now_secs.saturating_sub(then)),
        None => None,
    }
}

/// The current time as recorded for heartbeats: Unix seconds in decimal.
pub fn format_rfc3339_now() -> (r: String)
    ensures
        exists|now: u64| r@ == decimal(now as nat),
{
    let now = crate::clock::unix_seconds_now();
    decimal_string(now)
}

/// How long ago a heartbeat recorded as Unix seconds happened, by the system clock.
pub fn seconds_since_epoch_string(recorded: &str) -> (r: Option<u64>)
    ensures
        exists|now: u64| r == heartbeat_age(recorded@, now),
{
    let now = crate::clock::unix_seconds_now();
    seconds_since(recorded, now)
}

/// The watchdog's verdict at `now`: the age of the last heartbeat when the agent counts as
/// connected and that heartbeat is more than `HEARTBEAT_STALE_TIMEOUT_SECS` old.
pub open spec fn stale_heartbeat_age(s: SnapshotView, now: u64) -> Option<u64> {
    if !s.connected {
        None
    } else {
        match s.last_heartbeat_at {
            None => None,
            Some(at) => match heartbeat_age(at, now) {
                Some(age) => if age > HEARTBEAT_STALE_TIMEOUT_SECS {
                    Some(age)
                } else {
                    None
                },
                None => None,
            },
        }
    }
}

/// Checks the heartbeat of a connected agent at `now_secs` (see `stale_heartbeat_age`).
pub fn stale_heartbeat(snapshot: &DesktopRuntimeSnapshot, now_secs: u64) -> (r: Option<u64>)
    ensures
        r == stale_heartbeat_age(snapshot@, now_secs),
{
    if !snapshot.connected {
        return None;
    }
    match &snapshot.last_heartbeat_at {
        None => None,
        Some(at) => match seconds_since(at.as_str(), now_secs) {
            Some(age) => if age > HEARTBEAT_STALE_TIMEOUT_SECS {
                Some(age)
            } else {
                None
            },
            None => None,
        },
    }
}

/// What the supervisor does after a failed run: the next attempt number (saturating),
/// the pause before it, the event that shows the reconnect, and the two log lines it
/// writes.
#[derive(Debug)]
pub struct RetryPlan {
    pub attempt: u32,
    pub delay_secs: u64,
    pub event: RuntimeEvent,
    pub error_line: String,
    pub schedule_line: String,
}

/// Plans the retry after a failed run, given the attempts so far and the error as shown
/// to the user.
pub fn plan_retry(previous_attempts: u32, error: &str) -> (r: RetryPlan)
    ensures
        r.attempt == if previous_attempts == u32::MAX {
            u32::MAX
        } else {
            (previous_attempts + 1) as u32
        },
        r.delay_secs == retry_delay_secs(r.attempt),
        r.event matches RuntimeEvent::RetryScheduled(a, m) && a == r.attempt && m@ == error@,
        r.error_line@ == "[remote-terminal-cloud-agent] runtime error: "@ + error@,
        r.schedule_line@ == "[remote-terminal-cloud-agent] reconnect scheduled in "@ + decimal(
            r.delay_secs as nat,
        ) + "s (attempt "@ + decimal(r.attempt as nat) + ")."@,
{
    let attempt = previous_attempts.saturating_add(1);
    let delay_secs = compute_retry_delay(attempt);
    let mut error_line = owned("[remote-terminal-cloud-agent] runtime error: ");
    error_line.append(error);
    let mut schedule_line = owned("[remote-terminal-cloud-agent] reconnect scheduled in ");
    let d = decimal_string(delay_secs);
    schedule_line.append(d.as_str());
    schedule_line.append("s (attempt ");
    let a = decimal_string(attempt as u64);
    schedule_line.append(a.as_str());
    schedule_line.append(").");
    RetryPlan {
        attempt,
        delay_secs,
        event: RuntimeEvent::RetryScheduled(attempt, owned(error)),
        error_line,
        schedule_line,
    }
}

/// What a desktop run does next, before its background tasks start.
#[derive(Debug, Clone, Copy, PartialEq, Eq)]
pub enum DesktopRunStep {
    /// No registration token yet: wait for the configuration, then try again.
    WaitForConfig,
    /// Register with the backend.
    Register,
    /// Registered, but heartbeat and tunnel are both disabled: wait, then try again.
    WaitLoopsDisabled,
    /// Start the background tasks.
    StartTasks,
}

/// The next step of a desktop run: a token is needed first, then registration, then at
/// least one of the heartbeat and the tunnel.
pub open spec fn desktop_run_step_of(
    has_token: bool,
    registered: bool,
    run_heartbeat: bool,
    run_tunnel: bool,
) -> DesktopRunStep {
    if !has_token {
        DesktopRunStep::WaitForConfig
    } else if !registered {
        DesktopRunStep::Register
    } else if !run_heartbeat && !run_tunnel {
        DesktopRunStep::WaitLoopsDisabled
    } else {
        DesktopRunStep::StartTasks
    }
}

/// Decides the next step of a desktop run (see `desktop_run_step_of`).
pub fn desktop_run_step(has_token: bool, registered: bool, run_heartbeat: bool, run_tunnel: bool) -> (r:
    DesktopRunStep)
    ensures
        r == desktop_run_step_of(has_token, registered, run_heartbeat, run_tunnel),
{
    if !has_token {
        DesktopRunStep::WaitForConfig
    } else if !registered {
        DesktopRunStep::Register
    } else if !run_heartbeat && !run_tunnel {
        DesktopRunStep::WaitLoopsDisabled
    } else {
        DesktopRunStep::StartTasks
    }
}

/// How the first background task of a run to finish came back.
#[derive(Debug, Clone)]
pub enum TaskOutcome {
    /// The task returned without an error.
    Finished(TaskSignal),
    /// The task returned an error.
    Failed(AgentError),
    /// The task could not be joined (it panicked or was cancelled), with the reason.
    JoinFailed(String),
    /// No task was running.
    NoTasks,
}

/// What a run does once a background task has come back: the event for the snapshot,
/// the log line, and how the run ends.
#[derive(Debug)]
pub struct TaskOutcomeDecision {
    pub event: Option<RuntimeEvent>,
    pub log_line: Option<String>,
    pub result: Result<(), AgentError>,
}

/// The error of a run that had no task left.
pub open spec fn no_tasks_message() -> Seq<char> {
    "agent runtime exited without active tasks"@
}

/// Decides what a run does once its first background task has come back. With the tunnel
/// on, any end restarts the connection: a task that returned is reported as disconnected,
/// a failed one by its error, and one that could not be joined as a failed background
/// task. With only the heartbeat on, the heartbeat task's own result ends the run.
pub fn decide_task_outcome(run_heartbeat: bool, run_tunnel: bool, outcome: TaskOutcome) -> (r:
    TaskOutcomeDecision)
    ensures
        run_tunnel ==> match outcome {
            TaskOutcome::Finished(signal) => {
                &&& r.event matches Some(RuntimeEvent::TaskEnded(s)) && s == signal
                &&& r.log_line matches Some(l) && l@ == "[remote-terminal-cloud-agent] "@
                    + signal_label(signal) + " exited unexpectedly; restarting agent connection."@
                &&& r.result matches Err(AgentError::Other(m)) && m@ == signal_label(signal)
                    + " disconnected"@
            },
            TaskOutcome::Failed(e) => {
                &&& r.event matches Some(RuntimeEvent::TaskFailed(m)) && m@ == user_facing_text(e)
                &&& r.log_line matches Some(l) && l@
                    == "[remote-terminal-cloud-agent] connection anomaly detected; restarting agent connection: "@
                    + user_facing_text(e)
                &&& r.result == Err::<(), AgentError>(e)
            },
            TaskOutcome::JoinFailed(reason) => {
                &&& r.event matches Some(RuntimeEvent::TaskAborted(m)) && m@ == reason@
                &&& r.log_line is None
                &&& r.result matches Err(AgentError::Other(m)) && m@ == "agent background task failed: "@
                    + reason@
            },
            TaskOutcome::NoTasks => {
                &&& r.event is None
                &&& r.log_line is None
                &&& r.result matches Err(AgentError::Other(m)) && m@ == no_tasks_message()
            },
        },
        !run_tunnel && run_heartbeat ==> {
            &&& r.event is None
            &&& r.log_line is None
            &&& match outcome {
                TaskOutcome::Finished(_) => r.result is Ok,
                TaskOutcome::Failed(e) => r.result == Err::<(), AgentError>(e),
                TaskOutcome::JoinFailed(reason) => r.result matches Err(AgentError::Other(m)) && m@
                    == "heartbeat task failed: "@ + reason@,
                TaskOutcome::NoTasks => r.result matches Err(AgentError::Other(m)) && m@
                    == no_tasks_message(),
            }
        },
        !run_tunnel && !run_heartbeat ==> {
            &&& r.event is None
            &&& r.log_line is None
            &&& r.result matches Err(AgentError::Other(m)) && m@ == no_tasks_message()
        },
{
    if !run_tunnel && !run_heartbeat {
        return TaskOutcomeDecision {
            event: None,
            log_line: None,
            result: Err(AgentError::Other(owned("agent runtime exited without active tasks"))),
        };
    }
    if !run_tunnel {
        let result = match outcome {
            TaskOutcome::Finished(_) => Ok(()),
            TaskOutcome::Failed(e) => Err(e),
            TaskOutcome::JoinFailed(reason) => {
                let mut m = owned("heartbeat task failed: ");
                m.append(reason.as_str());
                Err(AgentError::Other(m))
            },
            TaskOutcome::NoTasks => Err(
                AgentError::Other(owned("agent runtime exited without active tasks")),
            ),
        };
        return TaskOutcomeDecision { event: None, log_line: None, result };
    }
    match outcome {
        TaskOutcome::Finished(signal) => {
            let label = task_signal_label(signal);
            let mut line = owned("[remote-terminal-cloud-agent] ");
            line.append(label);
            line.append(" exited unexpectedly; restarting agent connection.");
            let mut m = owned(label);
            m.append(" disconnected");
            TaskOutcomeDecision {
                event: Some(RuntimeEvent::TaskEnded(signal)),
                log_line: Some(line),
                result: Err(AgentError::Other(m)),
            }
        },
        TaskOutcome::Failed(e) => {
            let shown = user_facing_error(&e);
            let mut line = owned(
                "[remote-terminal-cloud-agent] connection anomaly detected; restarting agent connection: ",
            );
            line.append(shown.as_str());
            TaskOutcomeDecision {
                event: Some(RuntimeEvent::TaskFailed(shown)),
                log_line: Some(line),
                result: Err(e),
            }
        },
        TaskOutcome::JoinFailed(reason) => {
            let mut m = owned("agent background task failed: ");
            m.append(reason.as_str());
            TaskOutcomeDecision {
                event: Some(RuntimeEvent::TaskAborted(reason)),
                log_line: None,
                result: Err(AgentError::Other(m)),
            }
        },
        TaskOutcome::NoTasks => TaskOutcomeDecision {
            event: None,
            log_line: None,
            result: Err(AgentError::Other(owned("agent runtime exited without active tasks"))),
        },
    }
}

} // verus!
