//! Decisions of the agent runtime: retry backoff, session bookkeeping after registration
//! and heartbeat, and the handling of messages received over the tunnel.
use vstd::prelude::*;

use crate::config::AgentState;
use crate::errors::{AgentError, RegisteredAgentSession};
use crate::protocol::{
    shell_name, AgentHeartbeatResponse, AgentRegistrationResponse, DirectoryBrowseResultMessage,
    PreferencesResultMessage, RemoteTerminalAgentPreferencesData, SessionErrorMessage,
    SessionExitMessage, SessionOutputMessage, SessionReadyMessage, ShellType,
};
use crate::text::{
    chars_of, decimal, decimal_string, is_blank, is_blank_seq, join_seq, join_strings, owned, str_eq, string_from_chars,
    strings_view, trim, trim_seq,
};

verus! {

/// The longest pause between retries, in seconds.
pub const MAX_BACKOFF_INTERVAL_SECS: u64 = 60;

/// The first pause after a failure, in seconds.
pub const INITIAL_BACKOFF_INTERVAL_SECS: u64 = 2;

/// The next backoff: twice the current one, at most `MAX_BACKOFF_INTERVAL_SECS`.
pub open spec fn grown_backoff(current: u64) -> u64 {
    let doubled = if current * 2 > u64::MAX {
        u64::MAX as int
    } else {
        current * 2
    };
    if doubled > MAX_BACKOFF_INTERVAL_SECS {
        MAX_BACKOFF_INTERVAL_SECS
    } else {
        doubled as u64
    }
}

/// Doubles a backoff in seconds, capped at one minute.
pub fn grow_backoff(current_secs: u64) -> (r: u64)
    ensures
        r == grown_backoff(current_secs),
        r <= MAX_BACKOFF_INTERVAL_SECS,
{
    if current_secs < MAX_BACKOFF_INTERVAL_SECS / 2 + 1 && current_secs * 2 < MAX_BACKOFF_INTERVAL_SECS {
        current_secs * 2
    } else {
        MAX_BACKOFF_INTERVAL_SECS
    }
}

/// The pause before a retry: the backoff plus a jitter of zero or one second chosen by
/// the parity of `seed` (saturating).
pub open spec fn delay_with_jitter(current: u64, seed: u64) -> u64 {
    if current + seed % 2 > u64::MAX {
        u64::MAX
    } else {
        (current + seed % 2) as u64
    }
}

/// The pause before a retry for a given jitter seed (see `delay_with_jitter`).
pub fn backoff_delay_with_jitter(current_secs: u64, seed: u64) -> (r: u64)
    ensures
        r == delay_with_jitter(current_secs, seed),
{
    current_secs.saturating_add(seed % 2)
}

/// The pause before a retry: the backoff plus zero or one second of jitter taken from the
/// clock.
pub fn next_backoff_delay(current_secs: u64) -> (r: u64)
    ensures
        exists|seed: u64| r == delay_with_jitter(current_secs, seed),
        current_secs <= r,
        r <= current_secs + 1,
{
    let seed = crate::clock::subsec_nanos_now();
    backoff_delay_with_jitter(current_secs, seed)
}

/// Backoff never exceeds its cap, and never shrinks below where it started unless it was
/// above the cap.
pub proof fn lemma_backoff_bounded(current: u64)
    ensures
        grown_backoff(current) <= MAX_BACKOFF_INTERVAL_SECS,
        current <= MAX_BACKOFF_INTERVAL_SECS ==> current <= grown_backoff(current),
        grown_backoff(grown_backoff(current)) >= grown_backoff(current) || grown_backoff(current)
            == MAX_BACKOFF_INTERVAL_SECS,
{
}

/// The shell names joined by `, `, or `none` for no shells.
pub open spec fn shells_text(items: Seq<ShellType>) -> Seq<char> {
    if items.len() == 0 {
        "none"@
    } else {
        join_seq(items.map_values(|t: ShellType| shell_name(t)), ", "@)
    }
}

/// Lists shells for display, such as `bash, zsh`.
pub fn join_shells(items: &[ShellType]) -> (r: String)
    ensures
        r@ == shells_text(items@),
{
    if items.len() == 0 {
        return owned("none");
    }
    let mut names: Vec<String> = Vec::new();
    let mut i: usize = 0;
    while i < items.len()
        invariant
            i <= items@.len(),
            strings_view(names@) =~= items@.take(i as int).map_values(|t: ShellType| shell_name(t)),
        decreases items@.len() - i,
    {
        let n = owned(items[i].as_str());
        let ghost before = names@;
        names.push(n);
        assert(strings_view(names@) =~= strings_view(before).push(n@));
        i = i + 1;
    }
    assert(items@.take(items@.len() as int) =~= items@);
    join_strings(&names, ", ")
}

/// The session a registration response establishes (its websocket URL trimmed).
pub fn session_from_registration(response: AgentRegistrationResponse) -> (r: RegisteredAgentSession)
    ensures
        r.device_id@ == response.device_id@,
        r.heartbeat_token@ == response.heartbeat_token@,
        r.heartbeat_interval_seconds == response.heartbeat_interval_seconds,
        r.websocket_url@ == trim_seq(response.websocket_url@),
{
    RegisteredAgentSession {
        websocket_url: trim(response.websocket_url.as_str()),
        device_id: response.device_id,
        heartbeat_token: response.heartbeat_token,
        heartbeat_interval_seconds: response.heartbeat_interval_seconds,
    }
}

/// The session after a successful heartbeat: the next interval from the response, and the
/// response's websocket URL (trimmed) when it gave one.
pub fn apply_heartbeat_response(session: &RegisteredAgentSession, response: &AgentHeartbeatResponse) -> (r:
    RegisteredAgentSession)
    ensures
        r.device_id@ == session.device_id@,
        r.heartbeat_token@ == session.heartbeat_token@,
        r.heartbeat_interval_seconds == response.next_heartbeat_interval_seconds,
        r.websocket_url@ == if is_blank_seq(response.websocket_url@) {
            session.websocket_url@
        } else {
            trim_seq(response.websocket_url@)
        },
{
    let websocket_url = if is_blank(response.websocket_url.as_str()) {
        owned(session.websocket_url.as_str())
    } else {
        trim(response.websocket_url.as_str())
    };
    RegisteredAgentSession {
        device_id: owned(session.device_id.as_str()),
        heartbeat_token: owned(session.heartbeat_token.as_str()),
        heartbeat_interval_seconds: response.next_heartbeat_interval_seconds,
        websocket_url,
    }
}

/// The part of a session that persisted state carries across a restart.
pub struct SessionView {
    pub device_id: Seq<char>,
    pub heartbeat_token: Seq<char>,
    pub heartbeat_interval_seconds: i32,
    pub websocket_url: Seq<char>,
}

/// A session as the values it is made of.
pub open spec fn session_view(s: RegisteredAgentSession) -> SessionView {
    SessionView {
        device_id: s.device_id@,
        heartbeat_token: s.heartbeat_token@,
        heartbeat_interval_seconds: s.heartbeat_interval_seconds,
        websocket_url: s.websocket_url@,
    }
}

/// The session that persisted state resumes.
pub open spec fn resumed_session(state: AgentState) -> SessionView {
    SessionView {
        device_id: state.device_id@,
        heartbeat_token: state.heartbeat_token@,
        heartbeat_interval_seconds: state.heartbeat_interval_seconds,
        websocket_url: state.websocket_url@,
    }
}

/// `state` is what is persisted for `session` on the given server, with the given device
/// fingerprint and fingerprint scheme.
pub open spec fn persisted_for(
    state: AgentState,
    session: RegisteredAgentSession,
    server_base_url: Seq<char>,
    device_fingerprint: Seq<char>,
    fingerprint_version: Seq<char>,
) -> bool {
    &&& state.device_id@ == session.device_id@
    &&& state.heartbeat_token@ == session.heartbeat_token@
    &&& state.heartbeat_interval_seconds == session.heartbeat_interval_seconds
    &&& state.websocket_url@ == session.websocket_url@
    &&& state.server_base_url@ == server_base_url
    &&& state.device_fingerprint@ == device_fingerprint
    &&& state.fingerprint_version@ == fingerprint_version
}

/// The session resumed from persisted state.
pub fn session_from_state(state: &AgentState) -> (r: RegisteredAgentSession)
    ensures
        session_view(r) == resumed_session(*state),
{
    RegisteredAgentSession {
        device_id: owned(state.device_id.as_str()),
        heartbeat_token: owned(state.heartbeat_token.as_str()),
        heartbeat_interval_seconds: state.heartbeat_interval_seconds,
        websocket_url: owned(state.websocket_url.as_str()),
    }
}

/// The state persisted for a session, so that a restart resumes it.
pub fn state_for_session(
    session: &RegisteredAgentSession,
    server_base_url: &str,
    device_fingerprint: &str,
    fingerprint_version: &str,
) -> (r: AgentState)
    ensures
        persisted_for(r, *session, server_base_url@, device_fingerprint@, fingerprint_version@),
{
    AgentState {
        device_id: owned(session.device_id.as_str()),
        heartbeat_token: owned(session.heartbeat_token.as_str()),
        heartbeat_interval_seconds: session.heartbeat_interval_seconds,
        websocket_url: owned(session.websocket_url.as_str()),
        server_base_url: owned(server_base_url),
        device_fingerprint: owned(device_fingerprint),
        fingerprint_version: owned(fingerprint_version),
    }
}

/// A session survives being persisted and resumed: whatever server and fingerprint the
/// state was written with, the state persisted for a session resumes that same session.
pub proof fn lemma_state_roundtrip(
    session: RegisteredAgentSession,
    state: AgentState,
    server_base_url: Seq<char>,
    device_fingerprint: Seq<char>,
    fingerprint_version: Seq<char>,
)
    requires
        persisted_for(state, session, server_base_url, device_fingerprint, fingerprint_version),
    ensures
        resumed_session(state) == session_view(session),
{
}

/// A string without its trailing `/` characters (`str::trim_end_matches('/')`).
pub open spec fn without_trailing_slashes(s: Seq<char>) -> Seq<char>
    decreases s.len(),
{
    if s.len() > 0 && s.last() == '/' {
        without_trailing_slashes(s.drop_last())
    } else {
        s
    }
}

/// The URL of a backend endpoint: the base URL without trailing slashes, then the path.
pub fn endpoint_url(server_base_url: &str, path: &str) -> (r: String)
    ensures
        r@ == without_trailing_slashes(server_base_url@) + path@,
{
    let v = chars_of(server_base_url);
    let mut n = v.len();
    assert(v@.take(n as int) =~= v@);
    while n > 0 && v[n - 1] == '/'
        invariant
            v@ == server_base_url@,
            n <= v.len(),
            without_trailing_slashes(v@) == without_trailing_slashes(v@.take(n as int)),
        decreases n,
    {
        assert(v@.take(n as int).drop_last() =~= v@.take(n - 1));
        n = n - 1;
    }
    assert(without_trailing_slashes(v@.take(n as int)) == v@.take(n as int));
    let mut kept: Vec<char> = Vec::new();
    let mut i: usize = 0;
    while i < n
        invariant
            n <= v.len(),
            i <= n,
            kept@ =~= v@.take(i as int),
        decreases n - i,
    {
        kept.push(v[i]);
        i = i + 1;
    }
    let mut s = string_from_chars(&kept);
    s.append(path);
    s
}

/// The websocket scheme for a server base URL scheme (`http` → `ws`, `https` → `wss`);
/// other schemes are not supported.
pub open spec fn websocket_scheme(scheme: Seq<char>) -> Option<Seq<char>> {
    if scheme == "http"@ || scheme == "ws"@ {
        Some("ws"@)
    } else if scheme == "https"@ || scheme == "wss"@ {
        Some("wss"@)
    } else {
        None
    }
}

/// The websocket scheme for a server base URL scheme (see `websocket_scheme`).
pub fn websocket_scheme_for(scheme: &str) -> (r: Option<&'static str>)
    ensures
        match r {
            Some(s) => websocket_scheme(scheme@) == Some(s@),
            None => websocket_scheme(scheme@) is None,
        },
{
    if str_eq(scheme, "http") || str_eq(scheme, "ws") {
        Some("ws")
    } else if str_eq(scheme, "https") || str_eq(scheme, "wss") {
        Some("wss")
    } else {
        None
    }
}

/// Whether the session's own websocket URL is used (else one is built from the base URL).
pub fn uses_session_websocket_url(session: &RegisteredAgentSession) -> (r: bool)
    ensures
        r == !is_blank_seq(session.websocket_url@),
{
    !is_blank(session.websocket_url.as_str())
}

/// The kinds of message the backend sends over the tunnel.
#[derive(Debug, Clone, Copy, PartialEq, Eq, Structural)]
pub enum ServerMessageKind {
    SessionStart,
    SessionInput,
    SessionResize,
    SessionStop,
    DirectoryBrowse,
    PreferencesGet,
    PreferencesSet,
    Untyped,
    Unsupported,
}

/// The kind of a tunnel message by its `type` field (empty when absent).
pub open spec fn message_kind(t: Seq<char>) -> ServerMessageKind {
    if t == "session-start"@ {
        ServerMessageKind::SessionStart
    } else if t == "session-input"@ {
        ServerMessageKind::SessionInput
    } else if t == "session-resize"@ {
        ServerMessageKind::SessionResize
    } else if t == "session-stop"@ {
        ServerMessageKind::SessionStop
    } else if t == "directory-browse"@ {
        ServerMessageKind::DirectoryBrowse
    } else if t == "preferences-get"@ {
        ServerMessageKind::PreferencesGet
    } else if t == "preferences-set"@ {
        ServerMessageKind::PreferencesSet
    } else if t.len() == 0 {
        ServerMessageKind::Untyped
    } else {
        ServerMessageKind::Unsupported
    }
}

/// Routes a tunnel message by its `type` field.
pub fn route_server_message(message_type: &str) -> (r: ServerMessageKind)
    ensures
        r == message_kind(message_type@),
{
    if str_eq(message_type, "session-start") {
        ServerMessageKind::SessionStart
    } else if str_eq(message_type, "session-input") {
        ServerMessageKind::SessionInput
    } else if str_eq(message_type, "session-resize") {
        ServerMessageKind::SessionResize
    } else if str_eq(message_type, "session-stop") {
        ServerMessageKind::SessionStop
    } else if str_eq(message_type, "directory-browse") {
        ServerMessageKind::DirectoryBrowse
    } else if str_eq(message_type, "preferences-get") {
        ServerMessageKind::PreferencesGet
    } else if str_eq(message_type, "preferences-set") {
        ServerMessageKind::PreferencesSet
    } else if message_type.unicode_len() == 0 {
        ServerMessageKind::Untyped
    } else {
        ServerMessageKind::Unsupported
    }
}

/// The reply to `preferences-get`: the preferences served, tagged with the request id.
pub fn preferences_get_result(request_id: String, preferences: RemoteTerminalAgentPreferencesData) -> (r:
    PreferencesResultMessage)
    ensures
        r.message_type@ == "preferences-result"@,
        r.request_id@ == request_id@,
        r.ok,
        r.message@ == Seq::<char>::empty(),
        r.preferences@ == preferences@,
{
    PreferencesResultMessage {
        message_type: owned("preferences-result"),
        request_id,
        ok: true,
        message: String::new(),
        preferences,
    }
}

/// The reply to `preferences-set`: on success the preferences saved; on failure the error
/// message and the preferences still served.
pub fn preferences_set_result(
    request_id: String,
    outcome: Result<RemoteTerminalAgentPreferencesData, String>,
    still_served: RemoteTerminalAgentPreferencesData,
) -> (r: PreferencesResultMessage)
    ensures
        r.message_type@ == "preferences-result"@,
        r.request_id@ == request_id@,
        match outcome {
            Ok(saved) => r.ok && r.message@ == Seq::<char>::empty() && r.preferences@ == saved@,
            Err(e) => !r.ok && r.message@ == e@ && r.preferences@ == still_served@,
        },
{
    match outcome {
        Ok(saved) => PreferencesResultMessage {
            message_type: owned("preferences-result"),
            request_id,
            ok: true,
            message: String::new(),
            preferences: saved,
        },
        Err(e) => PreferencesResultMessage {
            message_type: owned("preferences-result"),
            request_id,
            ok: false,
            message: e,
            preferences: still_served,
        },
    }
}

/// The reply to a `directory-browse` that failed: not ok, the error message, and the
/// requested path (trimmed) as the current path.
pub fn directory_browse_failure(request_id: String, requested_path: &str, error_message: String) -> (r:
    DirectoryBrowseResultMessage)
    ensures
        r.message_type@ == "directory-browse-result"@,
        r.request_id@ == request_id@,
        !r.ok,
        r.message@ == error_message@,
        r.current_path@ == trim_seq(requested_path@),
        r.parent_path@ == Seq::<char>::empty(),
        r.items@.len() == 0,
{
    DirectoryBrowseResultMessage {
        message_type: owned("directory-browse-result"),
        request_id,
        ok: false,
        message: error_message,
        current_path: trim(requested_path),
        parent_path: String::new(),
        items: Vec::new(),
    }
}

/// `session-ready` for a session.
pub fn session_ready(session_id: &str) -> (r: SessionReadyMessage)
    ensures
        r.message_type@ == "session-ready"@,
        r.session_id@ == session_id@,
{
    SessionReadyMessage { message_type: owned("session-ready"), session_id: owned(session_id) }
}

/// `session-output` for a session, on the given stream.
pub fn session_output(session_id: &str, stream: &str, data: String) -> (r: SessionOutputMessage)
    ensures
        r.message_type@ == "session-output"@,
        r.session_id@ == session_id@,
        r.stream@ == stream@,
        r.data@ == data@,
{
    SessionOutputMessage {
        message_type: owned("session-output"),
        session_id: owned(session_id),
        stream: owned(stream),
        data,
    }
}

/// `session-error` for a session.
pub fn session_error(session_id: &str, message: &str) -> (r: SessionErrorMessage)
    ensures
        r.message_type@ == "session-error"@,
        r.session_id@ == session_id@,
        r.message@ == message@,
{
    SessionErrorMessage {
        message_type: owned("session-error"),
        session_id: owned(session_id),
        message: owned(message),
    }
}

/// `session-exit` for a session, with its exit code when known.
pub fn session_exit(session_id: &str, exit_code: Option<i32>) -> (r: SessionExitMessage)
    ensures
        r.message_type@ == "session-exit"@,
        r.session_id@ == session_id@,
        r.exit_code == exit_code,
{
    SessionExitMessage {
        message_type: owned("session-exit"),
        session_id: owned(session_id),
        exit_code,
    }
}

/// How long a heartbeat loop waits before the next heartbeat: the session's interval in
/// seconds, at least one.
pub fn heartbeat_wait_secs(interval_seconds: i32) -> (r: u64)
    ensures
        r == if interval_seconds < 1 {
            1
        } else {
            interval_seconds as int
        },
{
    if interval_seconds < 1 {
        1
    } else {
        interval_seconds as u64
    }
}

/// What a heartbeat or tunnel loop does after a failure.
#[derive(Debug, Clone, Copy, PartialEq, Eq, Structural)]
pub enum FailureAction {
    /// The credentials were refused: forget the persisted session and end the loop.
    ClearStateAndStop,
    /// Wait, then try again with the grown backoff.
    RetryAfter { delay_secs: u64, next_backoff_secs: u64 },
}

/// The action after a failure for a given jitter seed: an authentication failure ends the
/// loop; any other waits for the backoff with jitter and doubles the backoff (capped).
pub open spec fn failure_action(backoff_secs: u64, authentication: bool, seed: u64) -> FailureAction {
    if authentication {
        FailureAction::ClearStateAndStop
    } else {
        FailureAction::RetryAfter {
            delay_secs: delay_with_jitter(backoff_secs, seed),
            next_backoff_secs: grown_backoff(backoff_secs),
        }
    }
}

/// Decides what a heartbeat or tunnel loop does after `error` with the current failure
/// backoff (see `failure_action`; the jitter comes from the clock).
pub fn after_loop_failure(failure_backoff_secs: u64, error: &AgentError) -> (r: FailureAction)
    ensures
        exists|seed: u64|
            r == failure_action(
                failure_backoff_secs,
                crate::errors::is_authentication_kind_of(*error),
                seed,
            ),
{
    if crate::errors::is_authentication_error(error) {
        assert(FailureAction::ClearStateAndStop == failure_action(failure_backoff_secs, true, 0));
        return FailureAction::ClearStateAndStop;
    }
    let seed = crate::clock::subsec_nanos_now();
    let delay_secs = backoff_delay_with_jitter(failure_backoff_secs, seed);
    let next_backoff_secs = grow_backoff(failure_backoff_secs);
    let r = FailureAction::RetryAfter { delay_secs, next_backoff_secs };
    assert(r == failure_action(failure_backoff_secs, false, seed));
    r
}

/// When the tunnel closes without an error it reconnects after the first backoff (with
/// jitter), and the backoff after that is doubled.
pub fn after_tunnel_closed() -> (r: (u64, u64))
    ensures
        exists|seed: u64| r.0 == delay_with_jitter(INITIAL_BACKOFF_INTERVAL_SECS, seed),
        r.1 == grown_backoff(INITIAL_BACKOFF_INTERVAL_SECS),
        INITIAL_BACKOFF_INTERVAL_SECS <= r.0 <= INITIAL_BACKOFF_INTERVAL_SECS + 1,
{
    let delay = next_backoff_delay(INITIAL_BACKOFF_INTERVAL_SECS);
    (delay, grow_backoff(INITIAL_BACKOFF_INTERVAL_SECS))
}

/// `url::Url`, carried through the websocket URL construction.
#[verifier::external_type_specification]
#[verifier::external_body]
pub struct ExUrl(url::Url);

/// Why `url::Url::parse` refuses a text (its error's message), or `None` when it parses.
pub uninterp spec fn url_parse_failure(text: Seq<char>) -> Option<Seq<char>>;

/// The scheme (`url::Url::scheme`) of the URL that `url::Url::parse` makes of a text.
pub uninterp spec fn parsed_url_scheme(text: Seq<char>) -> Seq<char>;

/// The text (`url::Url`'s `Display`) of the URL parsed from `base`, given the scheme
/// `scheme` and the path `path`, with the name/value pairs of `query` appended to its query
/// in order.
pub uninterp spec fn serialized_url(
    base: Seq<char>,
    scheme: Seq<char>,
    path: Seq<char>,
    query: Seq<(Seq<char>, Seq<char>)>,
) -> Seq<char>;

/// How a URL came about: the text it was parsed from, then the scheme and the path set on
/// it (when they were), then the name/value pairs appended to its query, in order.
pub struct UrlModel {
    pub base: Seq<char>,
    pub scheme: Option<Seq<char>>,
    pub path: Option<Seq<char>>,
    pub query: Seq<(Seq<char>, Seq<char>)>,
}

/// A URL together with how it came about; only the functions below make or change one, each
/// recording what it did.
struct BuiltUrl {
    url: url::Url,
    model: Ghost<UrlModel>,
}

/// `url::Url::parse`: parses an absolute URL; whether it fails, and with which message, is
/// named by `url_parse_failure` of the text. The URL made is recorded as parsed from the text.
#[verifier::external_body]
fn parse_url(text: &str) -> (r: Result<BuiltUrl, String>)
    ensures
        match r {
            Ok(u) => url_parse_failure(text@) is None && u.model@ == (UrlModel {
                base: text@,
                scheme: None,
                path: None,
                query: Seq::empty(),
            }),
            Err(e) => url_parse_failure(text@) == Some(e@),
        },
{
    match url::Url::parse(text) {
        Ok(url) => Ok(BuiltUrl { url, model: Ghost(UrlModel { base: text@, scheme: None, path: None, query: Seq::empty() }) }),
        Err(e) => Err(e.to_string()),
    }
}

/// `url::Url::scheme` of a URL as parsed: named by `parsed_url_scheme` of the text.
#[verifier::external_body]
fn url_scheme(u: &BuiltUrl) -> (r: String)
    requires
        u.model@.scheme is None,
    ensures
        r@ == parsed_url_scheme(u.model@.base),
{
    u.url.scheme().to_string()
}

/// `url::Url::set_scheme` on a URL as parsed: whether the URL took the new scheme. Between
/// the special schemes `http`, `https`, `ws` and `wss` it always does, since a parsed URL
/// with such a scheme has a host (url `set_scheme` refuses only a change between special
/// and other schemes, `file` with an authority, or a special scheme without a host).
#[verifier::external_body]
fn set_url_scheme(u: &mut BuiltUrl, scheme: &str) -> (r: bool)
    requires
        old(u).model@.scheme is None,
        old(u).model@.path is None,
        old(u).model@.query.len() == 0,
    ensures
        r ==> final(u).model@ == (UrlModel { scheme: Some(scheme@), ..old(u).model@ }),
        !r ==> final(u).model@ == old(u).model@,
        ({
            let s = parsed_url_scheme(old(u).model@.base);
            (s == "http"@ || s == "https"@ || s == "ws"@ || s == "wss"@) && (scheme@ == "ws"@
                || scheme@ == "wss"@)
        }) ==> r,
{
    u.url.set_scheme(scheme).is_ok()
}

/// `url::Url::set_path`: replaces the URL's path, recorded as set.
#[verifier::external_body]
fn set_url_path(u: &mut BuiltUrl, path: &str)
    requires
        old(u).model@.path is None,
        old(u).model@.query.len() == 0,
    ensures
        final(u).model@ == (UrlModel { path: Some(path@), ..old(u).model@ }),
{
    u.url.set_path(path)
}

/// `append_pair` on `url::Url::query_pairs_mut`: appends a form-encoded name and value to
/// the URL's query, recorded in order.
#[verifier::external_body]
fn append_query_pair(u: &mut BuiltUrl, name: &str, value: &str)
    requires
        old(u).model@.path is Some,
    ensures
        final(u).model@ == (UrlModel { query: old(u).model@.query.push((name@, value@)), ..old(u).model@ }),
{
    u.url.query_pairs_mut().append_pair(name, value);
}

/// `url::Url`'s serialisation (`to_string`) of a URL whose scheme and path were set: named
/// by `serialized_url` of how it came about.
#[verifier::external_body]
fn url_text(u: &BuiltUrl) -> (r: String)
    requires
        u.model@.scheme is Some,
        u.model@.path is Some,
    ensures
        r@ == serialized_url(
            u.model@.base,
            u.model@.scheme.unwrap(),
            u.model@.path.unwrap(),
            u.model@.query,
        ),
{
    u.url.to_string()
}

/// The query of the agent's websocket URL.
pub open spec fn agent_query(device_id: Seq<char>, heartbeat_token: Seq<char>) -> Seq<
    (Seq<char>, Seq<char>),
> {
    seq![("role"@, "agent"@), ("deviceId"@, device_id), ("heartbeatToken"@, heartbeat_token)]
}

/// The websocket URL built from a server base URL for a session, or why it cannot be:
/// the base URL's parse error; a scheme other than `http`, `https`, `ws` or `wss`; else the
/// base URL with the websocket scheme, the path `/remote-terminal/ws` and the query
/// `role=agent`, the device id and the heartbeat token.
pub open spec fn websocket_url_for(base: Seq<char>, device_id: Seq<char>, heartbeat_token: Seq<char>) -> Result<
    Seq<char>,
    Seq<char>,
> {
    match url_parse_failure(base) {
        Some(m) => Err(m),
        None => match websocket_scheme(parsed_url_scheme(base)) {
            Some(target) => Ok(
                serialized_url(
                    base,
                    target,
                    "/remote-terminal/ws"@,
                    agent_query(device_id, heartbeat_token),
                ),
            ),
            None => Err("unsupported server base URL scheme: "@ + parsed_url_scheme(base)),
        },
    }
}

/// Builds the agent's websocket URL from the server base URL (see `websocket_url_for`).
pub fn build_websocket_url(server_base_url: &str, session: &RegisteredAgentSession) -> (r: Result<
    String,
    String,
>)
    ensures
        match r {
            Ok(u) => websocket_url_for(
                server_base_url@,
                session.device_id@,
                session.heartbeat_token@,
            ) == Ok::<Seq<char>, Seq<char>>(u@),
            Err(e) => websocket_url_for(
                server_base_url@,
                session.device_id@,
                session.heartbeat_token@,
            ) == Err::<Seq<char>, Seq<char>>(e@),
        },
{
    let mut parsed = match parse_url(server_base_url) {
        Ok(u) => u,
        Err(e) => {
            return Err(e);
        },
    };
    let scheme = url_scheme(&parsed);
    let target = match websocket_scheme_for(scheme.as_str()) {
        Some(t) => t,
        None => {
            let mut e = owned("unsupported server base URL scheme: ");
            e.append(scheme.as_str());
            return Err(e);
        },
    };
    if !set_url_scheme(&mut parsed, target) {
        return Err(owned("invalid websocket scheme"));
    }
    set_url_path(&mut parsed, "/remote-terminal/ws");
    append_query_pair(&mut parsed, "role", "agent");
    append_query_pair(&mut parsed, "deviceId", session.device_id.as_str());
    append_query_pair(&mut parsed, "heartbeatToken", session.heartbeat_token.as_str());
    assert(parsed.model@.query =~= agent_query(session.device_id@, session.heartbeat_token@));
    Ok(url_text(&parsed))
}

/// The websocket URL the agent connects to: the session's own when it has one (not blank),
/// else the one built from the server base URL (see `websocket_url_for`).
pub fn agent_websocket_url(server_base_url: &str, session: &RegisteredAgentSession) -> (r: Result<
    String,
    String,
>)
    ensures
        !is_blank_seq(session.websocket_url@) ==> (r matches Ok(u) && u@ == session.websocket_url@),
        is_blank_seq(session.websocket_url@) ==> match r {
            Ok(u) => websocket_url_for(
                server_base_url@,
                session.device_id@,
                session.heartbeat_token@,
            ) == Ok::<Seq<char>, Seq<char>>(u@),
            Err(e) => websocket_url_for(
                server_base_url@,
                session.device_id@,
                session.heartbeat_token@,
            ) == Err::<Seq<char>, Seq<char>>(e@),
        },
{
    if uses_session_websocket_url(session) {
        Ok(owned(session.websocket_url.as_str()))
    } else {
        build_websocket_url(server_base_url, session)
    }
}

/// What arrives on the tunnel's websocket, as far as the tunnel's decisions go.
#[derive(Debug, Clone)]
pub enum ServerFrame {
    /// A text message.
    Text,
    /// A binary message (read as text).
    Binary,
    /// A close frame with its status code and reason.
    Close { code: u16, reason: String },
    /// A close frame without a payload.
    CloseWithoutPayload,
    /// A ping.
    Ping,
    /// A pong.
    Pong,
    /// A raw frame.
    RawFrame,
    /// The stream ended without a close frame.
    StreamEnded,
}

/// What the tunnel does with a frame.
#[derive(Debug, Clone)]
pub enum FrameAction {
    /// Decode the payload and handle it as a server message.
    HandleMessage,
    /// Answer with a pong carrying the ping's payload.
    ReplyPong,
    /// Nothing.
    Ignore,
    /// The tunnel ends normally.
    EndTunnel,
    /// The tunnel ends with this error.
    Fail(String),
}

/// The error a close frame with a payload ends the tunnel with.
pub open spec fn close_message(code: u16, reason: Seq<char>) -> Seq<char> {
    "websocket closed by server (code "@ + decimal(code as nat) + ", reason `"@ + reason + "`)"@
}

/// Decides what the tunnel does with a frame: messages are handled, pings answered,
/// pongs and raw frames ignored; a close frame without a payload ends the tunnel normally,
/// one with a payload ends it with an error naming the code and the reason, and a stream
/// that ends without a close frame ends it with an error.
pub fn frame_action(frame: &ServerFrame) -> (r: FrameAction)
    ensures
        match frame {
            ServerFrame::Text => r is HandleMessage,
            ServerFrame::Binary => r is HandleMessage,
            ServerFrame::Ping => r is ReplyPong,
            ServerFrame::Pong => r is Ignore,
            ServerFrame::RawFrame => r is Ignore,
            ServerFrame::CloseWithoutPayload => r is EndTunnel,
            ServerFrame::Close { code, reason } => r matches FrameAction::Fail(m) && m@ == close_message(
                *code,
                reason@,
            ),
            ServerFrame::StreamEnded => r matches FrameAction::Fail(m) && m@
                == "websocket stream ended without a close frame"@,
        },
{
    match frame {
        ServerFrame::Text => FrameAction::HandleMessage,
        ServerFrame::Binary => FrameAction::HandleMessage,
        ServerFrame::Ping => FrameAction::ReplyPong,
        ServerFrame::Pong => FrameAction::Ignore,
        ServerFrame::RawFrame => FrameAction::Ignore,
        ServerFrame::CloseWithoutPayload => FrameAction::EndTunnel,
        ServerFrame::Close { code, reason } => {
            let mut m = owned("websocket closed by server (code ");
            let digits = decimal_string(*code as u64);
            m.append(digits.as_str());
            m.append(", reason `");
            m.append(reason.as_str());
            m.append("`)");
            FrameAction::Fail(m)
        },
        ServerFrame::StreamEnded => FrameAction::Fail(owned("websocket stream ended without a close frame")),
    }
}

} // verus!
