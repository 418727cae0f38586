//! Decisions of the agent's command line: how the configuration and host are reported,
//! which service command is meant, how the background process is tracked by its pid
//! file, and how the agent's directory is added to or removed from the user's `PATH`.
use vstd::prelude::*;

use crate::config::{opt_view, RuntimeConfig};
use crate::platform::{default_shell_choice, resolve_default_shell};
use crate::preferences::PreferencesSummary;
use crate::protocol::{shell_name, HostSnapshot, PlatformId, ShellType};
use crate::text::{
    ascii_lower_seq, ascii_lowercase, contains, contains_seq, decimal, decimal_string, find,
    first_occurrence, is_blank, is_white_space, join_seq, join_strings, lines_seq, owned, parse_u64,
    parsed_u64, split_chars, split_seq, str_eq, strings_view, text_lines, trim, trim_seq,
    trim_start_seq,
};

verus! {

/// Whether a registration token is configured, as reported.
pub fn token_status(has_token: bool) -> (r: &'static str)
    ensures
        r@ == if has_token {
            "configured"@
        } else {
            "missing"@
        },
{
    if has_token {
        "configured"
    } else {
        "missing"
    }
}

/// Where the registration token comes from, as reported: the environment when it
/// overrides the file, else the configuration file; `none` without a token.
pub open spec fn token_source_text(has_token: bool, env_override: bool) -> Seq<char> {
    if !has_token {
        "none"@
    } else if env_override {
        "environment variable RTC_REGISTRATION_TOKEN"@
    } else {
        "config file"@
    }
}

/// Where the registration token comes from (see `token_source_text`).
pub fn registration_token_source(has_token: bool, env_override: bool) -> (r: &'static str)
    ensures
        r@ == token_source_text(has_token, env_override),
{
    if !has_token {
        "none"
    } else if env_override {
        "environment variable RTC_REGISTRATION_TOKEN"
    } else {
        "config file"
    }
}

/// The name of a platform as reported: `windows`, `linux`, `macos`, or `unknown`.
pub open spec fn platform_text(platform: Option<PlatformId>) -> Seq<char> {
    match platform {
        Some(PlatformId::Windows) => "windows"@,
        Some(PlatformId::Linux) => "linux"@,
        Some(PlatformId::Macos) => "macos"@,
        None => "unknown"@,
    }
}

/// The name of a platform (see `platform_text`).
pub fn platform_name(platform: Option<PlatformId>) -> (r: &'static str)
    ensures
        r@ == platform_text(platform),
{
    match platform {
        Some(PlatformId::Windows) => "windows",
        Some(PlatformId::Linux) => "linux",
        Some(PlatformId::Macos) => "macos",
        None => "unknown",
    }
}

/// The status the agent reports about itself and its host.
#[derive(Debug, Clone)]
pub struct StatusReport {
    pub version: String,
    pub server_base_url: String,
    pub config_file: String,
    pub preferences_file: String,
    pub registration_token: String,
    pub registration_token_source: String,
    pub run_heartbeat: bool,
    pub run_tunnel: bool,
    pub configured_default_shell: String,
    pub effective_default_shell: String,
    pub available_shells: Vec<String>,
    pub ssh_available: bool,
    pub ssh_detail: String,
    pub platform: String,
    pub arch: String,
    pub preferences_summary: PreferencesSummary,
}

fn shell_names(items: &Vec<ShellType>) -> (r: Vec<String>)
    ensures
        strings_view(r@) == items@.map_values(|t: ShellType| shell_name(t)),
{
    let mut out: Vec<String> = Vec::new();
    let mut i: usize = 0;
    while i < items.len()
        invariant
            i <= items@.len(),
            strings_view(out@) =~= items@.take(i as int).map_values(|t: ShellType| shell_name(t)),
        decreases items@.len() - i,
    {
        let n = owned(items[i].as_str());
        let ghost before = out@;
        out.push(n);
        assert(strings_view(out@) =~= strings_view(before).push(n@));
        assert(items@.take(i + 1) =~= items@.take(i as int).push(items@[i as int]));
        i = i + 1;
    }
    assert(items@.take(items@.len() as int) =~= items@);
    out
}

/// Builds the status report: the configuration as resolved, whether and where a token is
/// configured, the configured and the effective default shell (the configured one if the
/// host offers it, see `default_shell_choice`), the host's shells, SSH check, platform and
/// architecture, and the preferences summary.
pub fn status_report(
    version: &str,
    config: &RuntimeConfig,
    snapshot: &HostSnapshot,
    env_token_override: bool,
    preferences_summary: PreferencesSummary,
) -> (r: StatusReport)
    ensures
        r.version@ == version@,
        r.server_base_url@ == config.server_base_url@,
        r.config_file@ == config.config_file_path@,
        r.preferences_file@ == config.preferences_file_path@,
        r.registration_token@ == if config.registration_token is Some {
            "configured"@
        } else {
            "missing"@
        },
        r.registration_token_source@ == token_source_text(
            config.registration_token is Some,
            env_token_override,
        ),
        r.run_heartbeat == config.run_heartbeat,
        r.run_tunnel == config.run_tunnel,
        r.configured_default_shell@ == shell_name(config.default_shell_type),
        r.effective_default_shell@ == shell_name(
            default_shell_choice(config.default_shell_type, snapshot.diagnostics.available_shells@),
        ),
        strings_view(r.available_shells@) == snapshot.diagnostics.available_shells@.map_values(
            |t: ShellType| shell_name(t),
        ),
        r.ssh_available == snapshot.diagnostics.ssh_check.available,
        r.ssh_detail@ == snapshot.diagnostics.ssh_check.detail@,
        r.platform@ == platform_text(snapshot.platform),
        r.arch@ == snapshot.arch@,
        r.preferences_summary == preferences_summary,
{
    let has_token = config.registration_token.is_some();
    let effective = resolve_default_shell(
        config.default_shell_type,
        snapshot.diagnostics.available_shells.as_slice(),
    );
    StatusReport {
        version: owned(version),
        server_base_url: owned(config.server_base_url.as_str()),
        config_file: owned(config.config_file_path.as_str()),
        preferences_file: owned(config.preferences_file_path.as_str()),
        registration_token: owned(token_status(has_token)),
        registration_token_source: owned(registration_token_source(has_token, env_token_override)),
        run_heartbeat: config.run_heartbeat,
        run_tunnel: config.run_tunnel,
        configured_default_shell: owned(config.default_shell_type.as_str()),
        effective_default_shell: owned(effective.as_str()),
        available_shells: shell_names(&snapshot.diagnostics.available_shells),
        ssh_available: snapshot.diagnostics.ssh_check.available,
        ssh_detail: owned(snapshot.diagnostics.ssh_check.detail.as_str()),
        platform: owned(platform_name(snapshot.platform)),
        arch: owned(snapshot.arch.as_str()),
        preferences_summary,
    }
}

/// The service commands of the command line; an install may carry a registration token.
#[derive(Debug, Clone)]
pub enum ServiceCommand {
    Install(Option<String>),
    Uninstall,
    Start,
    Stop,
    Restart,
    Status,
}

/// Reads `rtc-agent service <action> [value]`: the action defaults to `status`; an
/// install takes the value as its token unless it is blank; other actions are refused
/// with `unknown service action: <action>`.
pub fn parse_service_command(action: Option<String>, value: Option<String>) -> (r: Result<
    ServiceCommand,
    String,
>)
    ensures
        ({
            let a = match action {
                Some(s) => s@,
                None => "status"@,
            };
            let v = match value {
                Some(s) => s@,
                None => Seq::<char>::empty(),
            };
            if a == "install"@ {
                r matches Ok(ServiceCommand::Install(t)) && opt_view(t) == if crate::text::is_blank_seq(v) {
                    None
                } else {
                    Some(v)
                }
            } else if a == "uninstall"@ {
                r matches Ok(ServiceCommand::Uninstall)
            } else if a == "start"@ {
                r matches Ok(ServiceCommand::Start)
            } else if a == "stop"@ {
                r matches Ok(ServiceCommand::Stop)
            } else if a == "restart"@ {
                r matches Ok(ServiceCommand::Restart)
            } else if a == "status"@ {
                r matches Ok(ServiceCommand::Status)
            } else {
                r matches Err(e) && e@ == "unknown service action: "@ + a
            }
        }),
{
    let a = match action {
        Some(s) => s,
        None => owned("status"),
    };
    let v = match value {
        Some(s) => s,
        None => String::new(),
    };
    let s = a.as_str();
    if str_eq(s, "install") {
        let token = if is_blank(v.as_str()) {
            None
        } else {
            Some(v)
        };
        Ok(ServiceCommand::Install(token))
    } else if str_eq(s, "uninstall") {
        Ok(ServiceCommand::Uninstall)
    } else if str_eq(s, "start") {
        Ok(ServiceCommand::Start)
    } else if str_eq(s, "stop") {
        Ok(ServiceCommand::Stop)
    } else if str_eq(s, "restart") {
        Ok(ServiceCommand::Restart)
    } else if str_eq(s, "status") {
        Ok(ServiceCommand::Status)
    } else {
        let mut e = owned("unknown service action: ");
        e.append(s);
        Err(e)
    }
}

/// The pid in a pid file: its trimmed content read as a 32-bit number
/// (`str::parse::<u32>`).
pub open spec fn pid_in(contents: Seq<char>) -> Option<u32> {
    match parsed_u64(trim_seq(contents)) {
        Some(v) => if v <= u32::MAX {
            Some(v as u32)
        } else {
            None
        },
        None => None,
    }
}

/// Reads the pid of the background agent from its pid file (see `pid_in`).
pub fn parse_pid(contents: &str) -> (r: Option<u32>)
    ensures
        r == pid_in(contents@),
{
    let t = trim(contents);
    match parse_u64(t.as_str()) {
        Some(v) => if v <= 4294967295 {
            Some(v as u32)
        } else {
            None
        },
        None => None,
    }
}

/// Whether `tasklist` output lists the process: it mentions the pid in decimal.
pub fn tasklist_shows_pid(output: &str, pid: u32) -> (r: bool)
    ensures
        r == contains_seq(output@, decimal(pid as nat)),
{
    let p = decimal_string(pid as u64);
    contains(output, p.as_str())
}

/// The first twelve characters of a fingerprint (or all of a shorter one), as logged.
pub open spec fn fingerprint_prefix(fingerprint: Seq<char>) -> Seq<char> {
    if fingerprint.len() < 12 {
        fingerprint
    } else {
        fingerprint.take(12)
    }
}

/// The line logged after a registration: the device and the first twelve characters of
/// the fingerprint.
pub fn registered_device_notice(device_id: &str, device_fingerprint: &str) -> (r: String)
    ensures
        r@ == "[remote-terminal-cloud-agent] registered device "@ + device_id@ + " for fingerprint "@
            + fingerprint_prefix(device_fingerprint@),
{
    let n = device_fingerprint.unicode_len();
    let end: usize = if n < 12 {
        n
    } else {
        12
    };
    let prefix = device_fingerprint.substring_char(0, end);
    assert(prefix@ =~= fingerprint_prefix(device_fingerprint@));
    let mut s = owned("[remote-terminal-cloud-agent] registered device ");
    s.append(device_id);
    s.append(" for fingerprint ");
    s.append(prefix);
    s
}

/// The notices logged at start-up: the configured default shell is unavailable (and
/// which one is used instead), no shell is available, the SSH check failed; in that order,
/// each only when it applies.
pub open spec fn startup_notices(
    configured: ShellType,
    effective: ShellType,
    no_shells: bool,
    ssh_available: bool,
) -> Seq<Seq<char>> {
    let a = if effective != configured {
        seq![
            "[remote-terminal-cloud-agent] RTC_DEFAULT_SHELL="@ + shell_name(configured)
                + " is unavailable; fallback to "@ + shell_name(effective) + "."@,
        ]
    } else {
        Seq::empty()
    };
    let b = if no_shells {
        a.push("[remote-terminal-cloud-agent] no shells available after detection/config filtering."@)
    } else {
        a
    };
    if !ssh_available {
        b.push("[remote-terminal-cloud-agent] SSH precheck failed."@)
    } else {
        b
    }
}

/// The start-up notices for a configured and an effective default shell (see
/// `startup_notices`).
pub fn startup_notice_lines(configured: ShellType, effective: ShellType, no_shells: bool, ssh_available: bool) -> (r:
    Vec<String>)
    ensures
        strings_view(r@) == startup_notices(configured, effective, no_shells, ssh_available),
{
    let mut out: Vec<String> = Vec::new();
    if effective != configured {
        let mut s = owned("[remote-terminal-cloud-agent] RTC_DEFAULT_SHELL=");
        s.append(configured.as_str());
        s.append(" is unavailable; fallback to ");
        s.append(effective.as_str());
        s.append(".");
        out.push(s);
    }
    let ghost a = strings_view(out@);
    if no_shells {
        out.push(
            owned("[remote-terminal-cloud-agent] no shells available after detection/config filtering."),
        );
    }
    let ghost b = strings_view(out@);
    if !ssh_available {
        out.push(owned("[remote-terminal-cloud-agent] SSH precheck failed."));
    }
    assert(strings_view(out@) =~= startup_notices(configured, effective, no_shells, ssh_available));
    out
}

/// The notice logged while no registration token is configured: an interactive session
/// asks to update the file or set the variable, a service waits for configuration.
pub fn missing_token_notice(interactive: bool, config_file: &str) -> (r: String)
    ensures
        r@ == if interactive {
            "[remote-terminal-cloud-agent] registration token is still empty. Update "@ + config_file@
                + " or set RTC_REGISTRATION_TOKEN, then the agent will retry automatically."@
        } else {
            "[remote-terminal-cloud-agent] waiting for configuration: set RTC_REGISTRATION_TOKEN in "@
                + config_file@ + " or environment, then the service will retry automatically."@
        },
{
    if interactive {
        let mut s = owned("[remote-terminal-cloud-agent] registration token is still empty. Update ");
        s.append(config_file);
        s.append(" or set RTC_REGISTRATION_TOKEN, then the agent will retry automatically.");
        s
    } else {
        let mut s = owned("[remote-terminal-cloud-agent] waiting for configuration: set RTC_REGISTRATION_TOKEN in ");
        s.append(config_file);
        s.append(" or environment, then the service will retry automatically.");
        s
    }
}

/// The line `export PATH="<dir>:$PATH"  # rtc-agent` appended to shell start-up files,
/// between newlines.
pub fn path_export_line(bin_dir: &str) -> (r: String)
    ensures
        r@ == "\nexport PATH=\""@ + bin_dir@ + ":$PATH\"  # rtc-agent\n"@,
{
    let mut s = owned("\nexport PATH=\"");
    s.append(bin_dir);
    s.append(":$PATH\"  # rtc-agent\n");
    s
}

/// A shell start-up file without the lines that mention the directory, every kept line
/// ended by a newline; nothing to change when the file does not mention it.
pub open spec fn rc_without_dir(contents: Seq<char>, bin_dir: Seq<char>) -> Option<Seq<char>> {
    if !contains_seq(contents, bin_dir) {
        None
    } else {
        Some(kept_lines(lines_seq(contents), bin_dir))
    }
}

/// The lines that do not mention the directory, each followed by a newline.
pub open spec fn kept_lines(lines: Seq<Seq<char>>, bin_dir: Seq<char>) -> Seq<char>
    decreases lines.len(),
{
    if lines.len() == 0 {
        Seq::empty()
    } else {
        let rest = kept_lines(lines.drop_last(), bin_dir);
        if contains_seq(lines.last(), bin_dir) {
            rest
        } else {
            rest + lines.last() + "\n"@
        }
    }
}

/// Removes the directory's `PATH` entries from a shell start-up file (see
/// `rc_without_dir`).
pub fn remove_dir_from_rc(contents: &str, bin_dir: &str) -> (r: Option<String>)
    ensures
        opt_view(r) == rc_without_dir(contents@, bin_dir@),
{
    if !contains(contents, bin_dir) {
        return None;
    }
    let lines = text_lines(contents);
    let ghost ls = strings_view(lines@);
    let mut out = String::new();
    let mut i: usize = 0;
    while i < lines.len()
        invariant
            i <= lines@.len(),
            ls == strings_view(lines@),
            out@ == kept_lines(ls.take(i as int), bin_dir@),
        decreases lines@.len() - i,
    {
        assert(ls.take(i + 1).drop_last() =~= ls.take(i as int));
        assert(ls.take(i + 1).last() == lines@[i as int]@);
        if !contains(lines[i].as_str(), bin_dir) {
            out.append(lines[i].as_str());
            out.append("\n");
        }
        i = i + 1;
    }
    assert(ls.take(lines@.len() as int) =~= ls);
    Some(out)
}

/// The text a case-insensitive comparison looks at (`str::to_lowercase`).
pub uninterp spec fn unicode_lowercase(s: Seq<char>) -> Seq<char>;

/// `str::to_lowercase`: Unicode lower-casing of the whole text; its result is named by
/// `unicode_lowercase` and nothing more is claimed of it.
#[verifier::external_body]
fn to_lowercase(s: &str) -> (r: String)
    ensures
        r@ == unicode_lowercase(s@),
{
    s.to_lowercase()
}

/// The user's `PATH` with the directory added at its end, unless it already mentions the
/// directory (compared after lower-casing both); an empty `PATH` becomes the directory.
pub open spec fn path_with_dir(current: Seq<char>, bin_dir: Seq<char>) -> Option<Seq<char>> {
    if contains_seq(unicode_lowercase(current), unicode_lowercase(bin_dir)) {
        None
    } else if current.len() == 0 {
        Some(bin_dir)
    } else {
        Some(current + ";"@ + bin_dir)
    }
}

/// Adds the directory to the user's Windows `PATH` value (see `path_with_dir`); `None`
/// when it is there already.
pub fn add_dir_to_path(current: &str, bin_dir: &str) -> (r: Option<String>)
    ensures
        opt_view(r) == path_with_dir(current@, bin_dir@),
{
    let lc = to_lowercase(current);
    let lb = to_lowercase(bin_dir);
    if contains(lc.as_str(), lb.as_str()) {
        return None;
    }
    if current.unicode_len() == 0 {
        return Some(owned(bin_dir));
    }
    let mut s = owned(current);
    s.append(";");
    s.append(bin_dir);
    Some(s)
}

/// The entries of a `PATH` value other than the directory itself (compared ignoring ASCII
/// case).
pub open spec fn other_entries(entries: Seq<Seq<char>>, bin_dir: Seq<char>) -> Seq<Seq<char>>
    decreases entries.len(),
{
    if entries.len() == 0 {
        Seq::empty()
    } else {
        let rest = other_entries(entries.drop_last(), bin_dir);
        if ascii_lower_seq(entries.last()) == ascii_lower_seq(bin_dir) {
            rest
        } else {
            rest.push(entries.last())
        }
    }
}

/// The user's `PATH` without the directory: the `;`-separated entries equal to it
/// (ignoring ASCII case) are dropped; nothing to change when the `PATH` does not mention it
/// (compared after lower-casing both).
pub open spec fn path_without_dir(current: Seq<char>, bin_dir: Seq<char>) -> Option<Seq<char>> {
    if !contains_seq(unicode_lowercase(current), unicode_lowercase(bin_dir)) {
        None
    } else {
        Some(join_seq(other_entries(split_seq(current, ';'), bin_dir), ";"@))
    }
}

/// Removes the directory from the user's Windows `PATH` value (see `path_without_dir`).
pub fn remove_dir_from_path(current: &str, bin_dir: &str) -> (r: Option<String>)
    ensures
        opt_view(r) == path_without_dir(current@, bin_dir@),
{
    let lc = to_lowercase(current);
    let lb = to_lowercase(bin_dir);
    if !contains(lc.as_str(), lb.as_str()) {
        return None;
    }
    let key = ascii_lowercase(bin_dir);
    let pieces = split_chars(&crate::text::chars_of(current), ';');
    let ghost ps = crate::text::pieces_view(pieces@);
    let mut kept: Vec<String> = Vec::new();
    let mut i: usize = 0;
    while i < pieces.len()
        invariant
            i <= pieces@.len(),
            ps == crate::text::pieces_view(pieces@),
            key@ == ascii_lower_seq(bin_dir@),
            strings_view(kept@) == other_entries(ps.take(i as int), bin_dir@),
        decreases pieces@.len() - i,
    {
        assert(ps.take(i + 1).drop_last() =~= ps.take(i as int));
        assert(ps.take(i + 1).last() == pieces@[i as int]@);
        let entry = crate::text::string_from_chars(&pieces[i]);
        let lowered = ascii_lowercase(entry.as_str());
        if !str_eq(lowered.as_str(), key.as_str()) {
            let ghost before = kept@;
            let ghost ev = entry@;
            kept.push(entry);
            assert(strings_view(kept@) =~= strings_view(before).push(ev));
        }
        i = i + 1;
    }
    assert(ps.take(pieces@.len() as int) =~= ps);
    Some(join_strings(&kept, ";"))
}

/// A line of `reg query` output that holds the named value: its text, leading white space
/// aside, starts with the name.
pub open spec fn is_value_line(line: Seq<char>, name: Seq<char>) -> bool {
    let t = trim_start_seq(line);
    t.len() >= name.len() && t.take(name.len() as int) == name
}

/// Splits at the first `n - 1` occurrences of a non-empty `pat` (`str::splitn`).
pub open spec fn splitn_seq(s: Seq<char>, pat: Seq<char>, n: nat) -> Seq<Seq<char>>
    decreases n,
{
    if n <= 1 || pat.len() == 0 || !(exists|i: int| first_occurrence(s, pat, i)) {
        seq![s]
    } else {
        let i = choose|i: int| first_occurrence(s, pat, i);
        seq![s.take(i)] + splitn_seq(s.skip(i + pat.len()), pat, (n - 1) as nat)
    }
}

/// The last piece that is not empty, or nothing.
pub open spec fn last_non_empty(parts: Seq<Seq<char>>) -> Seq<char>
    decreases parts.len(),
{
    if parts.len() == 0 {
        Seq::empty()
    } else if parts.last().len() > 0 {
        parts.last()
    } else {
        last_non_empty(parts.drop_last())
    }
}

/// The first line that holds the named value.
pub open spec fn first_value_line(lines: Seq<Seq<char>>, name: Seq<char>) -> Option<Seq<char>>
    decreases lines.len(),
{
    if lines.len() == 0 {
        None
    } else if is_value_line(lines[0], name) {
        Some(lines[0])
    } else {
        first_value_line(lines.drop_first(), name)
    }
}

/// A value as `reg query <key> /v <name>` prints it: on the value's line, split at the
/// first three runs of four spaces, the last piece that is not empty; empty when there is
/// no such line.
pub open spec fn registry_value_of(output: Seq<char>, name: Seq<char>) -> Seq<char> {
    match first_value_line(lines_seq(output), name) {
        Some(l) => last_non_empty(splitn_seq(l, "    "@, 4)),
        None => Seq::empty(),
    }
}

/// The user's `PATH` as `reg query HKCU\Environment /v Path` prints it (see
/// `registry_value_of`).
pub open spec fn registry_path(output: Seq<char>) -> Seq<char> {
    registry_value_of(output, "Path"@)
}

fn starts_with_name(line: &str, name: &str) -> (r: bool)
    ensures
        r == is_value_line(line@, name@),
{
    let n = line.unicode_len();
    let m = name.unicode_len();
    let mut i: usize = 0;
    assert(line@.skip(0) =~= line@);
    while i < n && is_white_space_at(line, i)
        invariant
            i <= n,
            n == line@.len(),
            trim_start_seq(line@) == trim_start_seq(line@.skip(i as int)),
        decreases n - i,
    {
        assert(line@.skip(i as int).drop_first() =~= line@.skip(i + 1));
        i = i + 1;
    }
    assert(trim_start_seq(line@.skip(i as int)) == line@.skip(i as int));
    if n - i < m {
        return false;
    }
    let head = line.substring_char(i, i + m);
    assert(head@ =~= line@.skip(i as int).take(m as int));
    str_eq(head, name)
}

fn is_white_space_at(s: &str, i: usize) -> (r: bool)
    requires
        i < s@.len(),
    ensures
        r == is_white_space(s@[i as int]),
{
    crate::text::is_whitespace_char(s.get_char(i))
}

fn splitn_four_spaces(line: &str) -> (r: Vec<String>)
    ensures
        strings_view(r@) == splitn_seq(line@, "    "@, 4),
{
    proof {
        reveal_strlit("    ");
    }
    let mut pieces: Vec<String> = Vec::new();
    let mut rest = owned(line);
    let mut exhausted = false;
    while pieces.len() < 3 && !exhausted
        invariant
            pieces@.len() <= 3,
            exhausted ==> !(exists|i: int| first_occurrence(rest@, "    "@, i)),
            strings_view(pieces@) + splitn_seq(rest@, "    "@, (4 - pieces@.len()) as nat) == splitn_seq(
                line@,
                "    "@,
                4,
            ),
        decreases 3 - pieces@.len() + (if exhausted {
            0int
        } else {
            1int
        }),
    {
        proof {
            reveal_strlit("    ");
        }
        match find(rest.as_str(), "    ") {
            Some(i) => {
                let ghost r = rest@;
                proof {
                    let j = choose|j: int| first_occurrence(r, "    "@, j);
                    if j < i {
                        assert(!crate::text::occurs_at(r, "    "@, j));
                    }
                    if i < j {
                        assert(!crate::text::occurs_at(r, "    "@, i as int));
                    }
                }
                let n = rest.as_str().unicode_len();
                let head = owned(rest.as_str().substring_char(0, i));
                let tail = owned(rest.as_str().substring_char(i + 4, n));
                assert(head@ =~= r.take(i as int));
                assert(tail@ =~= r.skip(i + 4));
                let ghost before = pieces@;
                pieces.push(head);
                assert(strings_view(pieces@) =~= strings_view(before).push(head@));
                assert(strings_view(pieces@) + splitn_seq(tail@, "    "@, (4 - pieces@.len()) as nat)
                    =~= strings_view(before) + splitn_seq(r, "    "@, (4 - before.len()) as nat));
                rest = tail;
            },
            None => {
                exhausted = true;
            },
        }
    }
    let ghost before = pieces@;
    let ghost r = rest@;
    pieces.push(rest);
    assert(strings_view(pieces@) =~= strings_view(before).push(r));
    assert(splitn_seq(r, "    "@, (4 - before.len()) as nat) =~= seq![r]);
    pieces
}

/// Reads a named value from `reg query` output (see `registry_value_of`).
pub fn registry_value(output: &str, name: &str) -> (r: String)
    ensures
        r@ == registry_value_of(output@, name@),
{
    let lines = text_lines(output);
    let ghost ls = strings_view(lines@);
    let mut i: usize = 0;
    assert(ls.skip(0) =~= ls);
    while i < lines.len()
        invariant
            i <= lines@.len(),
            ls == strings_view(lines@),
            ls == lines_seq(output@),
            first_value_line(ls, name@) == first_value_line(ls.skip(i as int), name@),
        decreases lines@.len() - i,
    {
        assert(ls.skip(i as int).drop_first() =~= ls.skip(i + 1));
        assert(ls.skip(i as int)[0] == lines@[i as int]@);
        if starts_with_name(lines[i].as_str(), name) {
            let parts = splitn_four_spaces(lines[i].as_str());
            let ghost ps = strings_view(parts@);
            let mut k: usize = parts.len();
            assert(ps.take(k as int) =~= ps);
            while k > 0 && parts[k - 1].as_str().unicode_len() == 0
                invariant
                    k <= parts@.len(),
                    ps == strings_view(parts@),
                    last_non_empty(ps) == last_non_empty(ps.take(k as int)),
                decreases k,
            {
                assert(ps.take(k as int).drop_last() =~= ps.take(k - 1));
                k = k - 1;
            }
            if k == 0 {
                return String::new();
            }
            assert(ps.take(k as int).last() == parts@[k - 1]@);
            return owned(parts[k - 1].as_str());
        }
        i = i + 1;
    }
    String::new()
}

/// Reads the user's `PATH` from `reg query` output (see `registry_path`).
pub fn registry_path_value(output: &str) -> (r: String)
    ensures
        r@ == registry_path(output@),
{
    registry_value(output, "Path")
}

} // verus!
