//! Agent configuration: how the environment and the configuration file combine into the
//! runtime configuration, and how registration tokens and flags are read.
use vstd::prelude::*;

use crate::protocol::{parse_shell_name, shell_named, PlatformId, ShellType};
use crate::text::{
    ascii_lower_seq, ascii_lowercase, is_blank, is_blank_seq, lemma_trim_idempotent, split_chars,
    split_seq, str_eq, string_from_chars, chars_of, strings_view, trim, trim_seq, owned,
};

verus! {

/// Backend used during local development.
pub const LOCAL_SERVER_BASE_URL: &'static str = "http://localhost:10001";

/// Backend that release builds talk to.
pub const RELEASE_SERVER_BASE_URL: &'static str = "https://api.qysyw.cn";

/// The view of an optional string.
pub open spec fn opt_view(o: Option<String>) -> Option<Seq<char>> {
    match o {
        Some(s) => Some(s@),
        None => None,
    }
}

/// The placeholder token shipped in example configuration files.
pub open spec fn placeholder_token() -> Seq<char> {
    "replace-with-real-token"@
}

/// A configured token, trimmed; blank values and the placeholder count as absent.
pub open spec fn normalized_token(v: Option<Seq<char>>) -> Option<Seq<char>> {
    match v {
        None => None,
        Some(s) => {
            let t = trim_seq(s);
            if t.len() == 0 || t == placeholder_token() {
                None
            } else {
                Some(t)
            }
        },
    }
}

/// Trims a configured value and drops it when it is blank or the placeholder token.
pub fn normalize_template_string(value: Option<String>) -> (r: Option<String>)
    ensures
        opt_view(r) == normalized_token(opt_view(value)),
{
    match value {
        None => None,
        Some(v) => {
            let t = trim(v.as_str());
            if t.as_str().unicode_len() == 0 || str_eq(t.as_str(), "replace-with-real-token") {
                None
            } else {
                Some(t)
            }
        },
    }
}

/// Normalising a token twice is normalising it once.
pub proof fn lemma_normalized_token_idempotent(v: Option<Seq<char>>)
    ensures
        normalized_token(normalized_token(v)) == normalized_token(v),
{
    if let Some(s) = v {
        lemma_trim_idempotent(s);
    }
}

/// The boolean that an environment flag spells, if any (`1/true/yes/on`, `0/false/no/off`,
/// case-insensitive, surrounding white space ignored).
pub open spec fn boolean_flag(s: Seq<char>) -> Option<bool> {
    let t = ascii_lower_seq(trim_seq(s));
    if t == "1"@ || t == "true"@ || t == "yes"@ || t == "on"@ {
        Some(true)
    } else if t == "0"@ || t == "false"@ || t == "no"@ || t == "off"@ {
        Some(false)
    } else {
        None
    }
}

/// Reads a boolean flag such as `RTC_DISABLE_HEARTBEAT`.
pub fn parse_boolean_flag(value: &str) -> (r: Option<bool>)
    ensures
        r == boolean_flag(value@),
{
    let t = trim(value);
    let l = ascii_lowercase(t.as_str());
    let s = l.as_str();
    if str_eq(s, "1") || str_eq(s, "true") || str_eq(s, "yes") || str_eq(s, "on") {
        Some(true)
    } else if str_eq(s, "0") || str_eq(s, "false") || str_eq(s, "no") || str_eq(s, "off") {
        Some(false)
    } else {
        None
    }
}

/// The flag is present and switched on.
pub open spec fn flag_on(v: Option<Seq<char>>) -> bool {
    match v {
        Some(s) => boolean_flag(s) == Some(true),
        None => false,
    }
}

/// Whether an optional flag value (such as `RTC_LOAD_DOTENV`) is switched on.
pub fn flag_enabled(value: &Option<String>) -> (r: bool)
    ensures
        r == flag_on(opt_view(*value)),
{
    match value {
        Some(v) => match parse_boolean_flag(v.as_str()) {
            Some(b) => b,
            None => false,
        },
        None => false,
    }
}

/// An optional value that is kept only when it is not blank (the value itself is not trimmed).
pub open spec fn non_blank(v: Option<Seq<char>>) -> Option<Seq<char>> {
    match v {
        Some(s) => if is_blank_seq(s) {
            None
        } else {
            Some(s)
        },
        None => None,
    }
}

/// The value when it is present and not blank, else the fallback.
pub open spec fn non_blank_or(v: Option<Seq<char>>, fallback: Seq<char>) -> Seq<char> {
    match non_blank(v) {
        Some(s) => s,
        None => fallback,
    }
}

/// Picks an environment override when it is set and not blank, else the fallback.
pub fn non_blank_or_else(value: Option<String>, fallback: String) -> (r: String)
    ensures
        r@ == non_blank_or(opt_view(value), fallback@),
{
    match value {
        Some(v) => if is_blank(v.as_str()) {
            fallback
        } else {
            v
        },
        None => fallback,
    }
}

/// The configuration file path: `RTC_CONFIG_FILE` when set and not blank, else the default.
pub fn choose_config_file_path(env_config_file: Option<String>, default_path: String) -> (r: String)
    ensures
        r@ == non_blank_or(opt_view(env_config_file), default_path@),
{
    non_blank_or_else(env_config_file, default_path)
}

/// The server base URL compiled in (`RTC_AGENT_SERVER_BASE_URL` at build time), else the
/// release backend.
pub fn default_server_base_url(build_time_value: Option<&'static str>) -> (r: &'static str)
    ensures
        r@ == match build_time_value {
            Some(v) => v@,
            None => RELEASE_SERVER_BASE_URL@,
        },
{
    match build_time_value {
        Some(v) => v,
        None => RELEASE_SERVER_BASE_URL,
    }
}

/// The contents of the configuration file; absent keys read as `None` or empty.
#[derive(Debug, Clone, Default)]
pub struct FileConfig {
    pub registration_token: Option<String>,
    pub run_heartbeat: Option<bool>,
    pub run_tunnel: Option<bool>,
    pub default_shell_type: String,
    pub enabled_shell_types: Vec<String>,
    pub preferences_file_path: String,
}

/// The registration of this agent, persisted so that a restart resumes it instead of
/// registering again.
#[derive(Debug, Clone)]
pub struct AgentState {
    pub device_id: String,
    pub heartbeat_token: String,
    pub heartbeat_interval_seconds: i32,
    pub websocket_url: String,
    pub server_base_url: String,
    pub device_fingerprint: String,
    pub fingerprint_version: String,
}

/// The configuration the agent runs with.
#[derive(Debug, Clone)]
pub struct RuntimeConfig {
    pub server_base_url: String,
    pub registration_token: Option<String>,
    pub run_heartbeat: bool,
    pub run_tunnel: bool,
    pub default_shell_type: ShellType,
    pub enabled_shell_types: Vec<ShellType>,
    pub preferences_file_path: String,
    pub config_file_path: String,
}

/// Everything the runtime configuration is made from: the environment variables as read
/// (`None` when unset), the parsed configuration file and the default paths.
#[derive(Debug, Clone)]
pub struct RuntimeConfigSources {
    pub server_base_url: String,
    pub config_file_path: String,
    pub default_preferences_file_path: String,
    pub file_config: FileConfig,
    pub env_server_base_url: Option<String>,
    pub env_registration_token: Option<String>,
    pub env_disable_heartbeat: Option<String>,
    pub env_disable_tunnel: Option<String>,
    pub env_default_shell: Option<String>,
    pub env_enabled_shells: Option<String>,
    pub env_preferences_file: Option<String>,
}

/// The first of two optional values that is present.
pub open spec fn first_some<T>(a: Option<T>, b: Option<T>) -> Option<T> {
    match a {
        Some(x) => Some(x),
        None => b,
    }
}

/// Whether a feature that an environment flag can disable stays on: the flag wins when it
/// parses, then the file's setting, then on.
pub open spec fn feature_enabled(env_disable: Option<Seq<char>>, file_setting: Option<bool>) -> bool {
    let from_env = match env_disable {
        Some(s) => boolean_flag(s),
        None => None,
    };
    match from_env {
        Some(disabled) => !disabled,
        None => match file_setting {
            Some(b) => b,
            None => true,
        },
    }
}

proof fn lemma_trim_plain(s: Seq<char>)
    requires
        s.len() > 0,
        !crate::text::is_white_space(s[0]),
        !crate::text::is_white_space(s.last()),
    ensures
        trim_seq(s) == s,
{
    assert(crate::text::trim_start_seq(s) == s);
    assert(crate::text::trim_end_seq(s) == s);
}

/// An environment flag that disables a feature wins whenever it spells a boolean: the
/// feature is on exactly when the flag says "not disabled", whatever the file says. So
/// `RTC_DISABLE_HEARTBEAT=1` turns the heartbeat off and `RTC_DISABLE_TUNNEL=0` keeps the
/// tunnel on. Without such a flag the file's setting holds, and the feature is on by
/// default.
pub proof fn lemma_disable_flag_wins(env_disable: Option<Seq<char>>, file_setting: Option<bool>, b: bool)
    ensures
        (env_disable is Some && boolean_flag(env_disable.unwrap()) == Some(b)) ==> feature_enabled(
            env_disable,
            file_setting,
        ) == !b,
        (env_disable is None || boolean_flag(env_disable.unwrap()) is None) ==> feature_enabled(env_disable, file_setting) == match file_setting {
            Some(f) => f,
            None => true,
        },
        feature_enabled(Some("1"@), file_setting) == false,
        feature_enabled(Some("0"@), file_setting) == true,
        feature_enabled(Some("true"@), file_setting) == false,
        feature_enabled(Some("false"@), file_setting) == true,
{
    reveal_strlit("1");
    reveal_strlit("0");
    reveal_strlit("true");
    reveal_strlit("false");
    lemma_trim_plain("1"@);
    lemma_trim_plain("0"@);
    lemma_trim_plain("true"@);
    lemma_trim_plain("false"@);
    assert(ascii_lower_seq("1"@) =~= "1"@);
    assert(ascii_lower_seq("0"@) =~= "0"@);
    assert(ascii_lower_seq("true"@) =~= "true"@);
    assert(ascii_lower_seq("false"@) =~= "false"@);
    reveal_strlit("yes");
    reveal_strlit("on");
    assert("0"@[0] != "1"@[0]);
    assert("0"@ != "1"@);
    assert("false"@.len() != "true"@.len());
    assert(boolean_flag("0"@) == Some(false));
    assert(boolean_flag("false"@) == Some(false));
}

/// The default shell: the environment's when it names a shell, else the file's, else the
/// system default.
pub open spec fn default_shell_from(env_shell: Option<Seq<char>>, file_shell: Seq<char>) -> ShellType {
    let from_env = match env_shell {
        Some(s) => shell_named(trim_seq(s)),
        None => None,
    };
    match from_env {
        Some(t) => t,
        None => match shell_named(trim_seq(file_shell)) {
            Some(t) => t,
            None => ShellType::SystemDefault,
        },
    }
}

/// The shells named by a list, in first-appearance order, each once; unknown names are
/// skipped.
pub open spec fn collect_shell_types(items: Seq<Seq<char>>) -> Seq<ShellType>
    decreases items.len(),
{
    if items.len() == 0 {
        Seq::<ShellType>::empty()
    } else {
        let acc = collect_shell_types(items.drop_last());
        match shell_named(trim_seq(items.last())) {
            Some(t) => if acc.contains(t) {
                acc
            } else {
                acc.push(t)
            },
            None => acc,
        }
    }
}

/// The list the enabled shells come from: the comma-separated environment value when set,
/// else the file's list.
pub open spec fn enabled_shell_items(env_shells: Option<Seq<char>>, file_items: Seq<Seq<char>>) -> Seq<
    Seq<char>,
> {
    match env_shells {
        Some(s) => split_seq(s, ','),
        None => file_items,
    }
}

/// The preferences file: the environment's when not blank, else the file's when not blank,
/// else the default.
pub open spec fn preferences_path_from(
    env_path: Option<Seq<char>>,
    file_path: Seq<char>,
    default_path: Seq<char>,
) -> Seq<char> {
    match non_blank(env_path) {
        Some(p) => p,
        None => if is_blank_seq(file_path) {
            default_path
        } else {
            file_path
        },
    }
}

/// No shell is listed twice.
pub proof fn lemma_collect_shell_types_distinct(items: Seq<Seq<char>>)
    ensures
        collect_shell_types(items).no_duplicates(),
    decreases items.len(),
{
    if items.len() > 0 {
        lemma_collect_shell_types_distinct(items.drop_last());
        let acc = collect_shell_types(items.drop_last());
        if let Some(t) = shell_named(trim_seq(items.last())) {
            if !acc.contains(t) {
                assert forall|i: int, j: int|
                    0 <= i < acc.push(t).len() && 0 <= j < acc.push(t).len() && i != j implies acc.push(
                    t,
                )[i] != acc.push(t)[j] by {
                    if i == acc.len() as int {
                        assert(acc[j] != t);
                    } else if j == acc.len() as int {
                        assert(acc[i] != t);
                    }
                }
            }
        }
    }
}

/// Every listed shell is named by some item of the list.
pub proof fn lemma_collect_shell_types_named(items: Seq<Seq<char>>, k: int)
    requires
        0 <= k < collect_shell_types(items).len(),
    ensures
        exists|i: int|
            0 <= i < items.len() && shell_named(trim_seq(#[trigger] items[i])) == Some(
                collect_shell_types(items)[k],
            ),
    decreases items.len(),
{
    let acc = collect_shell_types(items.drop_last());
    if k < acc.len() {
        lemma_collect_shell_types_named(items.drop_last(), k);
        let i = choose|i: int|
            0 <= i < items.drop_last().len() && shell_named(
                trim_seq(#[trigger] items.drop_last()[i]),
            ) == Some(acc[k]);
        assert(items[i] == items.drop_last()[i]);
    } else {
        assert(items[items.len() - 1] == items.last());
    }
}

/// Whether `t` is in `v`.
fn shell_listed(v: &Vec<ShellType>, t: ShellType) -> (r: bool)
    ensures
        r == v@.contains(t),
{
    let mut i: usize = 0;
    while i < v.len()
        invariant
            i <= v.len(),
            forall|k: int| 0 <= k < i ==> v@[k] != t,
        decreases v.len() - i,
    {
        if v[i] == t {
            return true;
        }
        i = i + 1;
    }
    false
}

/// The shells named by a list of names, each once, in first-appearance order.
pub fn collect_shells(items: &Vec<String>) -> (r: Vec<ShellType>)
    ensures
        r@ == collect_shell_types(strings_view(items@)),
{
    let mut acc: Vec<ShellType> = Vec::new();
    let ghost all = strings_view(items@);
    let mut i: usize = 0;
    while i < items.len()
        invariant
            all == strings_view(items@),
            i <= items.len(),
            acc@ == collect_shell_types(all.take(i as int)),
        decreases items.len() - i,
    {
        proof {
            assert(all.take(i + 1).drop_last() =~= all.take(i as int));
            assert(all.take(i + 1).last() == items@[i as int]@);
        }
        match parse_shell_name(items[i].as_str()) {
            Some(t) => {
                if !shell_listed(&acc, t) {
                    acc.push(t);
                }
            },
            None => {},
        }
        i = i + 1;
    }
    assert(all.take(items.len() as int) =~= all);
    acc
}

/// Splits a comma-separated list into owned strings.
pub fn split_list(value: &str) -> (r: Vec<String>)
    ensures
        strings_view(r@) == split_seq(value@, ','),
{
    let pieces = split_chars(&chars_of(value), ',');
    let mut out: Vec<String> = Vec::new();
    let mut i: usize = 0;
    while i < pieces.len()
        invariant
            i <= pieces.len(),
            strings_view(out@) =~= crate::text::pieces_view(pieces@).take(i as int),
        decreases pieces.len() - i,
    {
        let s = string_from_chars(&pieces[i]);
        let ghost before = out@;
        out.push(s);
        proof {
            assert(out@ =~= before.push(s));
            assert(strings_view(out@) =~= strings_view(before).push(s@));
            assert(crate::text::pieces_view(pieces@).take(i + 1) =~= crate::text::pieces_view(
                pieces@,
            ).take(i as int).push(pieces@[i as int]@));
        }
        i = i + 1;
    }
    assert(crate::text::pieces_view(pieces@).take(pieces.len() as int) =~= crate::text::pieces_view(
        pieces@,
    ));
    out
}

/// Combines the environment, the configuration file and the defaults into the runtime
/// configuration.
pub fn resolve_runtime_config(sources: RuntimeConfigSources) -> (r: RuntimeConfig)
    ensures
        r.server_base_url@ == non_blank_or(
            opt_view(sources.env_server_base_url),
            sources.server_base_url@,
        ),
        opt_view(r.registration_token) == first_some(
            normalized_token(opt_view(sources.env_registration_token)),
            opt_view(sources.file_config.registration_token),
        ),
        r.run_heartbeat == feature_enabled(
            opt_view(sources.env_disable_heartbeat),
            sources.file_config.run_heartbeat,
        ),
        r.run_tunnel == feature_enabled(
            opt_view(sources.env_disable_tunnel),
            sources.file_config.run_tunnel,
        ),
        r.default_shell_type == default_shell_from(
            opt_view(sources.env_default_shell),
            sources.file_config.default_shell_type@,
        ),
        r.enabled_shell_types@ == collect_shell_types(
            enabled_shell_items(
                opt_view(sources.env_enabled_shells),
                strings_view(sources.file_config.enabled_shell_types@),
            ),
        ),
        r.preferences_file_path@ == preferences_path_from(
            opt_view(sources.env_preferences_file),
            sources.file_config.preferences_file_path@,
            sources.default_preferences_file_path@,
        ),
        r.config_file_path@ == sources.config_file_path@,
{
    let RuntimeConfigSources {
        server_base_url,
        config_file_path,
        default_preferences_file_path,
        file_config,
        env_server_base_url,
        env_registration_token,
        env_disable_heartbeat,
        env_disable_tunnel,
        env_default_shell,
        env_enabled_shells,
        env_preferences_file,
    } = sources;
    let FileConfig {
        registration_token: file_token,
        run_heartbeat: file_heartbeat,
        run_tunnel: file_tunnel,
        default_shell_type: file_shell,
        enabled_shell_types: file_shells,
        preferences_file_path: file_preferences,
    } = file_config;

    let registration_token = match normalize_template_string(env_registration_token) {
        Some(t) => Some(t),
        None => file_token,
    };

    let heartbeat_flag = match &env_disable_heartbeat {
        Some(v) => parse_boolean_flag(v.as_str()),
        None => None,
    };
    let run_heartbeat = match heartbeat_flag {
        Some(disabled) => !disabled,
        None => match file_heartbeat {
            Some(b) => b,
            None => true,
        },
    };
    let tunnel_flag = match &env_disable_tunnel {
        Some(v) => parse_boolean_flag(v.as_str()),
        None => None,
    };
    let run_tunnel = match tunnel_flag {
        Some(disabled) => !disabled,
        None => match file_tunnel {
            Some(b) => b,
            None => true,
        },
    };

    let env_shell = match &env_default_shell {
        Some(v) => parse_shell_name(v.as_str()),
        None => None,
    };
    let default_shell_type = match env_shell {
        Some(t) => t,
        None => match parse_shell_name(file_shell.as_str()) {
            Some(t) => t,
            None => ShellType::SystemDefault,
        },
    };

    let enabled_shell_types = match &env_enabled_shells {
        Some(v) => {
            let items = split_list(v.as_str());
            collect_shells(&items)
        },
        None => collect_shells(&file_shells),
    };

    let preferences_file_path = match env_preferences_file {
        Some(p) => if is_blank(p.as_str()) {
            if is_blank(file_preferences.as_str()) {
                default_preferences_file_path
            } else {
                file_preferences
            }
        } else {
            p
        },
        None => if is_blank(file_preferences.as_str()) {
            default_preferences_file_path
        } else {
            file_preferences
        },
    };

    RuntimeConfig {
        server_base_url: non_blank_or_else(env_server_base_url, server_base_url),
        registration_token,
        run_heartbeat,
        run_tunnel,
        default_shell_type,
        enabled_shell_types,
        preferences_file_path,
        config_file_path,
    }
}

/// What the configuration file reader keeps of a parsed file: the token normalised and the
/// preferences path trimmed; every other setting as parsed.
pub fn normalize_file_config(config: FileConfig) -> (r: FileConfig)
    ensures
        opt_view(r.registration_token) == normalized_token(opt_view(config.registration_token)),
        r.preferences_file_path@ == trim_seq(config.preferences_file_path@),
        r.run_heartbeat == config.run_heartbeat,
        r.run_tunnel == config.run_tunnel,
        r.default_shell_type@ == config.default_shell_type@,
        strings_view(r.enabled_shell_types@) == strings_view(config.enabled_shell_types@),
{
    let FileConfig {
        registration_token,
        run_heartbeat,
        run_tunnel,
        default_shell_type,
        enabled_shell_types,
        preferences_file_path,
    } = config;
    FileConfig {
        registration_token: normalize_template_string(registration_token),
        run_heartbeat,
        run_tunnel,
        default_shell_type,
        enabled_shell_types,
        preferences_file_path: trim(preferences_file_path.as_str()),
    }
}

/// The configuration file with a new registration token stored (normalised), as saved by
/// the configuration wizard.
pub fn with_registration_token(config: FileConfig, token: String) -> (r: FileConfig)
    ensures
        opt_view(r.registration_token) == normalized_token(Some(token@)),
        r.preferences_file_path@ == config.preferences_file_path@,
        r.run_heartbeat == config.run_heartbeat,
        r.run_tunnel == config.run_tunnel,
        r.default_shell_type@ == config.default_shell_type@,
        strings_view(r.enabled_shell_types@) == strings_view(config.enabled_shell_types@),
{
    let FileConfig {
        registration_token: _,
        run_heartbeat,
        run_tunnel,
        default_shell_type,
        enabled_shell_types,
        preferences_file_path,
    } = config;
    FileConfig {
        registration_token: normalize_template_string(Some(token)),
        run_heartbeat,
        run_tunnel,
        default_shell_type,
        enabled_shell_types,
        preferences_file_path,
    }
}

/// The per-user directories the default file locations are chosen from, as the host
/// reports them: environment variables (`APPDATA`, `XDG_CONFIG_HOME`, `XDG_STATE_HOME`) and
/// the platform's own directories.
#[derive(Debug, Clone, Default)]
pub struct UserDirectories {
    pub appdata: Option<String>,
    pub xdg_config_home: Option<String>,
    pub xdg_state_home: Option<String>,
    pub home_dir: Option<String>,
    pub data_dir: Option<String>,
    pub config_dir: Option<String>,
    pub state_dir: Option<String>,
}

/// The files the agent keeps in its per-user directory.
#[derive(Debug, Clone, Copy, PartialEq, Eq)]
pub enum UserFile {
    Config,
    Preferences,
}

/// The agent's directory name under a per-user base directory.
pub const APP_DIR_NAME: &'static str = "remote-terminal-cloud-agent";

/// The file name of a per-user file.
pub open spec fn user_file_name(file: UserFile) -> Seq<char> {
    match file {
        UserFile::Config => "config.json"@,
        UserFile::Preferences => "preferences.json"@,
    }
}

/// A directory the host may not know, the current directory standing in for it.
pub open spec fn dir_or_current(dir: Option<Seq<char>>) -> Seq<char> {
    match dir {
        Some(d) => d,
        None => "."@,
    }
}

/// The default location of a per-user file, as the path components to join in order:
/// on Windows `%APPDATA%` (else the roaming data directory), on macOS
/// `~/Library/Application Support`, on Linux `$XDG_CONFIG_HOME` (else the configuration
/// directory) for the configuration file and `$XDG_STATE_HOME` (else the state directory)
/// for the preferences file; an environment variable counts only when it is not blank,
/// and a directory the host does not know is the current directory. The agent's
/// directory and the file name follow.
pub open spec fn user_file_components(
    platform: PlatformId,
    file: UserFile,
    dirs: UserDirectories,
) -> Seq<Seq<char>> {
    let tail = seq![APP_DIR_NAME@, user_file_name(file)];
    match platform {
        PlatformId::Windows => seq![
            non_blank_or(opt_view(dirs.appdata), dir_or_current(opt_view(dirs.data_dir))),
        ] + tail,
        PlatformId::Macos => seq![
            dir_or_current(opt_view(dirs.home_dir)),
            "Library"@,
            "Application Support"@,
        ] + tail,
        PlatformId::Linux => match file {
            UserFile::Config => seq![
                non_blank_or(opt_view(dirs.xdg_config_home), dir_or_current(opt_view(dirs.config_dir))),
            ] + tail,
            UserFile::Preferences => seq![
                non_blank_or(opt_view(dirs.xdg_state_home), dir_or_current(opt_view(dirs.state_dir))),
            ] + tail,
        },
    }
}

fn known_dir_or_current(dir: &Option<String>) -> (r: String)
    ensures
        r@ == dir_or_current(opt_view(*dir)),
{
    match dir {
        Some(d) => owned(d.as_str()),
        None => owned("."),
    }
}

fn override_or(value: &Option<String>, fallback: String) -> (r: String)
    ensures
        r@ == non_blank_or(opt_view(*value), fallback@),
{
    let v = match value {
        Some(v) => Some(owned(v.as_str())),
        None => None,
    };
    non_blank_or_else(v, fallback)
}

/// The default location of a per-user file (see `user_file_components`), as the path
/// components to join in order.
pub fn user_file_location(platform: PlatformId, file: UserFile, dirs: &UserDirectories) -> (r: Vec<String>)
    ensures
        strings_view(r@) == user_file_components(platform, file, *dirs),
{
    let mut parts: Vec<String> = Vec::new();
    match platform {
        PlatformId::Windows => {
            parts.push(override_or(&dirs.appdata, known_dir_or_current(&dirs.data_dir)));
        },
        PlatformId::Macos => {
            parts.push(known_dir_or_current(&dirs.home_dir));
            parts.push(owned("Library"));
            parts.push(owned("Application Support"));
        },
        PlatformId::Linux => match file {
            UserFile::Config => {
                parts.push(override_or(&dirs.xdg_config_home, known_dir_or_current(&dirs.config_dir)));
            },
            UserFile::Preferences => {
                parts.push(override_or(&dirs.xdg_state_home, known_dir_or_current(&dirs.state_dir)));
            },
        },
    }
    parts.push(owned(APP_DIR_NAME));
    parts.push(
        match file {
            UserFile::Config => owned("config.json"),
            UserFile::Preferences => owned("preferences.json"),
        },
    );
    assert(strings_view(parts@) =~= user_file_components(platform, file, *dirs));
    parts
}

} // verus!
