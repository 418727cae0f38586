//! Shell sessions: which program a session runs, in which directory it starts, and the
//! environment it is given.
use vstd::prelude::*;

use crate::protocol::{shell_name, DirectoryBrowseResultMessage, DirectoryEntry, PlatformId, ShellType};
use crate::text::{
    ascii_lower_seq, ascii_lowercase, chars_less, chars_of, is_blank, is_blank_seq, lemma_seq_less_asymmetric,
    lemma_seq_less_total, lemma_seq_less_transitive, owned, seq_less,
    str_eq, trim, trim_seq,
};

verus! {

/// The program and arguments a shell session is started with.
#[derive(Debug)]
pub struct ShellLaunch {
    pub executable: String,
    pub args: Vec<String>,
    pub shell_type: ShellType,
}

/// The mathematical content of a launch: executable, arguments and shell.
pub open spec fn launch_view(l: ShellLaunch) -> (Seq<char>, Seq<Seq<char>>, ShellType) {
    (l.executable@, l.args@.map_values(|s: String| s@), l.shell_type)
}

/// The command PowerShell runs first, switching the console to UTF-8.
pub open spec fn powershell_utf8_command() -> Seq<char> {
    "[Console]::InputEncoding=[System.Text.UTF8Encoding]::new($false); [Console]::OutputEncoding=[System.Text.UTF8Encoding]::new($false); $OutputEncoding=[Console]::OutputEncoding; chcp 65001 > $null"@
}

/// The value of an environment variable unless it is missing or blank.
pub open spec fn env_or(value: Option<Seq<char>>, fallback: Seq<char>) -> Seq<char> {
    match value {
        Some(v) => if is_blank_seq(v) {
            fallback
        } else {
            v
        },
        None => fallback,
    }
}

/// The launch for a requested shell: `system-default` stands for the configured default.
/// On Windows the system default and `cmd` run the command interpreter named by
/// `shell_env` (`ComSpec`), PowerShell and `pwsh` switch to UTF-8 first, and other shells are
/// refused. Elsewhere the system default runs the login shell named by `shell_env`
/// (`SHELL`), `bash`, `zsh` and `sh` run by name, `pwsh` runs without its logo, and other
/// shells are refused.
pub open spec fn shell_launch_for(
    requested: ShellType,
    default_shell: ShellType,
    platform: PlatformId,
    shell_env: Option<Seq<char>>,
) -> Result<(Seq<char>, Seq<Seq<char>>, ShellType), Seq<char>> {
    let normalized = if requested == ShellType::SystemDefault {
        default_shell
    } else {
        requested
    };
    if platform == PlatformId::Windows {
        match normalized {
            ShellType::SystemDefault | ShellType::Cmd => Ok(
                (
                    env_or(shell_env, "cmd.exe"@),
                    seq!["/d"@, "/k"@, "chcp 65001>nul"@],
                    ShellType::Cmd,
                ),
            ),
            ShellType::Powershell => Ok(
                (
                    "powershell.exe"@,
                    seq!["-NoLogo"@, "-NoExit"@, "-Command"@, powershell_utf8_command()],
                    ShellType::Powershell,
                ),
            ),
            ShellType::Pwsh => Ok(
                (
                    "pwsh.exe"@,
                    seq!["-NoLogo"@, "-NoExit"@, "-Command"@, powershell_utf8_command()],
                    ShellType::Pwsh,
                ),
            ),
            _ => Err("shell is not supported on Windows"@),
        }
    } else {
        match normalized {
            ShellType::SystemDefault => Ok(
                (env_or(shell_env, "/bin/bash"@), seq!["-i"@], ShellType::SystemDefault),
            ),
            ShellType::Bash | ShellType::Zsh | ShellType::Sh => Ok(
                (shell_name(normalized), seq!["-i"@], normalized),
            ),
            ShellType::Pwsh => Ok(("pwsh"@, seq!["-NoLogo"@], ShellType::Pwsh)),
            _ => Err("shell is not supported on this platform"@),
        }
    }
}

/// How shell requests are launched, whatever the configured default and environment: on
/// Windows `pwsh` runs `pwsh.exe` and PowerShell runs `powershell.exe`, two different
/// programs, both switching the console to UTF-8 first; elsewhere `pwsh` runs `pwsh`.
/// Every launch reports the shell it runs: the one requested, or for the system default
/// the configured default (shown as `cmd` on Windows, where it runs the command
/// interpreter).
pub proof fn lemma_shell_launch_programs(
    requested: ShellType,
    default_shell: ShellType,
    platform: PlatformId,
    shell_env: Option<Seq<char>>,
)
    ensures
        shell_launch_for(ShellType::Pwsh, default_shell, PlatformId::Windows, shell_env) matches Ok(l)
            && l.0 == "pwsh.exe"@ && l.2 == ShellType::Pwsh && l.1 == seq![
            "-NoLogo"@,
            "-NoExit"@,
            "-Command"@,
            powershell_utf8_command(),
        ],
        shell_launch_for(ShellType::Powershell, default_shell, PlatformId::Windows, shell_env) matches Ok(l)
            && l.0 == "powershell.exe"@ && l.2 == ShellType::Powershell,
        shell_launch_for(ShellType::Pwsh, default_shell, PlatformId::Windows, shell_env)->Ok_0.0
            != shell_launch_for(ShellType::Powershell, default_shell, PlatformId::Windows, shell_env)->Ok_0.0,
        platform != PlatformId::Windows ==> (shell_launch_for(ShellType::Pwsh, default_shell, platform, shell_env) matches Ok(l)
            && l.0 == "pwsh"@ && l.2 == ShellType::Pwsh),
        shell_launch_for(requested, default_shell, platform, shell_env) matches Ok(l) ==> l.2 == if requested
            == ShellType::SystemDefault {
            if platform == PlatformId::Windows && (default_shell == ShellType::SystemDefault || default_shell == ShellType::Cmd) {
                ShellType::Cmd
            } else {
                default_shell
            }
        } else {
            requested
        },
{
    reveal_strlit("pwsh.exe");
    reveal_strlit("powershell.exe");
    assert("pwsh.exe"@.len() != "powershell.exe"@.len());
}

fn env_or_fallback(value: &Option<String>, fallback: &str) -> (r: String)
    ensures
        r@ == env_or(
            match value {
                Some(v) => Some(v@),
                None => None,
            },
            fallback@,
        ),
{
    match value {
        Some(v) => if is_blank(v.as_str()) {
            owned(fallback)
        } else {
            owned(v.as_str())
        },
        None => owned(fallback),
    }
}

fn string_list(items: &[&str]) -> (r: Vec<String>)
    ensures
        r@.map_values(|s: String| s@) == items@.map_values(|s: &str| s@),
{
    let mut out: Vec<String> = Vec::new();
    let mut i: usize = 0;
    while i < items.len()
        invariant
            i <= items@.len(),
            out@.map_values(|s: String| s@) =~= items@.take(i as int).map_values(|s: &str| s@),
        decreases items@.len() - i,
    {
        let s = owned(items[i]);
        let ghost before = out@;
        out.push(s);
        assert(out@.map_values(|s: String| s@) =~= before.map_values(|s: String| s@).push(s@));
        assert(items@.take(i + 1) =~= items@.take(i as int).push(items@[i as int]));
        i = i + 1;
    }
    assert(items@.take(items@.len() as int) =~= items@);
    out
}

/// Chooses the program and arguments for a session (see `shell_launch_for`); the error is
/// the message reported to the backend.
pub fn resolve_shell_launch(
    requested: ShellType,
    default_shell: ShellType,
    platform: PlatformId,
    shell_env: Option<String>,
) -> (r: Result<ShellLaunch, String>)
    ensures
        match r {
            Ok(l) => shell_launch_for(
                requested,
                default_shell,
                platform,
                match shell_env {
                    Some(v) => Some(v@),
                    None => None,
                },
            ) == Ok::<(Seq<char>, Seq<Seq<char>>, ShellType), Seq<char>>(launch_view(l)),
            Err(e) => shell_launch_for(
                requested,
                default_shell,
                platform,
                match shell_env {
                    Some(v) => Some(v@),
                    None => None,
                },
            ) == Err::<(Seq<char>, Seq<Seq<char>>, ShellType), Seq<char>>(e@),
        },
{
    let normalized = if requested == ShellType::SystemDefault {
        default_shell
    } else {
        requested
    };
    let powershell = "[Console]::InputEncoding=[System.Text.UTF8Encoding]::new($false); [Console]::OutputEncoding=[System.Text.UTF8Encoding]::new($false); $OutputEncoding=[Console]::OutputEncoding; chcp 65001 > $null";
    proof {
        reveal_strlit("[Console]::InputEncoding=[System.Text.UTF8Encoding]::new($false); [Console]::OutputEncoding=[System.Text.UTF8Encoding]::new($false); $OutputEncoding=[Console]::OutputEncoding; chcp 65001 > $null");
    }
    if platform == PlatformId::Windows {
        match normalized {
            ShellType::SystemDefault | ShellType::Cmd => {
                let executable = env_or_fallback(&shell_env, "cmd.exe");
                let args = string_list(&["/d", "/k", "chcp 65001>nul"]);
                let l = ShellLaunch { executable, args, shell_type: ShellType::Cmd };
                assert(launch_view(l).1 =~= seq!["/d"@, "/k"@, "chcp 65001>nul"@]);
                Ok(l)
            },
            ShellType::Powershell => {
                let args = string_list(&["-NoLogo", "-NoExit", "-Command", powershell]);
                let l = ShellLaunch {
                    executable: owned("powershell.exe"),
                    args,
                    shell_type: ShellType::Powershell,
                };
                assert(launch_view(l).1 =~= seq![
                    "-NoLogo"@,
                    "-NoExit"@,
                    "-Command"@,
                    powershell_utf8_command(),
                ]);
                Ok(l)
            },
            ShellType::Pwsh => {
                let args = string_list(&["-NoLogo", "-NoExit", "-Command", powershell]);
                let l = ShellLaunch {
                    executable: owned("pwsh.exe"),
                    args,
                    shell_type: ShellType::Pwsh,
                };
                assert(launch_view(l).1 =~= seq![
                    "-NoLogo"@,
                    "-NoExit"@,
                    "-Command"@,
                    powershell_utf8_command(),
                ]);
                Ok(l)
            },
            _ => Err(owned("shell is not supported on Windows")),
        }
    } else {
        match normalized {
            ShellType::SystemDefault => {
                let executable = env_or_fallback(&shell_env, "/bin/bash");
                let l = ShellLaunch {
                    executable,
                    args: string_list(&["-i"]),
                    shell_type: ShellType::SystemDefault,
                };
                assert(launch_view(l).1 =~= seq!["-i"@]);
                Ok(l)
            },
            ShellType::Bash | ShellType::Zsh | ShellType::Sh => {
                let l = ShellLaunch {
                    executable: owned(normalized.as_str()),
                    args: string_list(&["-i"]),
                    shell_type: normalized,
                };
                assert(launch_view(l).1 =~= seq!["-i"@]);
                Ok(l)
            },
            ShellType::Pwsh => {
                let l = ShellLaunch {
                    executable: owned("pwsh"),
                    args: string_list(&["-NoLogo"]),
                    shell_type: ShellType::Pwsh,
                };
                assert(launch_view(l).1 =~= seq!["-NoLogo"@]);
                Ok(l)
            },
            _ => Err(owned("shell is not supported on this platform")),
        }
    }
}

/// What probing the requested working directory found.
#[derive(Debug, Clone)]
pub enum DirectoryProbe {
    IsDirectory,
    NotDirectory,
    Unreadable(String),
}

/// Where a session starts: the requested directory, or the agent's own directory
/// (`path` is `None`) with a warning that is shown in the terminal.
#[derive(Debug)]
pub struct WorkingDirectoryPlan {
    pub path: Option<String>,
    pub warning: Option<String>,
}

/// The warning shown when the requested directory cannot be used.
pub open spec fn working_directory_warning(normalized: Seq<char>, reason: Seq<char>) -> Seq<char> {
    "Unable to use working directory \""@ + normalized + "\", fallback to default directory: "@
        + reason
}

/// A blank request starts in the default directory; a directory is used as given
/// (trimmed); anything else falls back to the default directory with a warning that names
/// the path and the reason.
pub open spec fn working_directory_plan(requested: Seq<char>, probe: DirectoryProbe) -> (
    Option<Seq<char>>,
    Option<Seq<char>>,
) {
    let normalized = trim_seq(requested);
    if normalized.len() == 0 {
        (None, None)
    } else {
        match probe {
            DirectoryProbe::IsDirectory => (Some(normalized), None),
            DirectoryProbe::NotDirectory => (
                None,
                Some(
                    working_directory_warning(
                        normalized,
                        "selected path is not a directory."@,
                    ),
                ),
            ),
            DirectoryProbe::Unreadable(e) => (
                None,
                Some(working_directory_warning(normalized, e@)),
            ),
        }
    }
}

/// Decides where a session starts; `probe` describes the trimmed `working_directory` and
/// is not consulted when that is empty.
pub fn plan_working_directory(working_directory: &str, probe: DirectoryProbe) -> (r:
    WorkingDirectoryPlan)
    ensures
        working_directory_plan(working_directory@, probe) == (
            match r.path {
                Some(p) => Some(p@),
                None => None,
            },
            match r.warning {
                Some(w) => Some(w@),
                None => None,
            },
        ),
{
    let normalized = trim(working_directory);
    if normalized.as_str().unicode_len() == 0 {
        return WorkingDirectoryPlan { path: None, warning: None };
    }
    let reason = match probe {
        DirectoryProbe::IsDirectory => {
            return WorkingDirectoryPlan { path: Some(normalized), warning: None };
        },
        DirectoryProbe::NotDirectory => owned("selected path is not a directory."),
        DirectoryProbe::Unreadable(e) => e,
    };
    let mut warning = owned("Unable to use working directory \"");
    warning.append(normalized.as_str());
    warning.append("\", fallback to default directory: ");
    warning.append(reason.as_str());
    WorkingDirectoryPlan { path: None, warning: Some(warning) }
}

/// A terminal dimension requested by the backend: at least one, then cut to 16 bits.
pub open spec fn pty_dimension_of(value: i32) -> u16 {
    (if value < 1 {
        1
    } else {
        value
    }) as u16
}

/// The terminal size used for a resize request (`value.max(1) as u16`).
pub fn pty_dimension(value: i32) -> (r: u16)
    ensures
        r == pty_dimension_of(value),
{
    let at_least_one: i32 = if value < 1 {
        1
    } else {
        value
    };
    #[verifier::truncate]
    (at_least_one as u16)
}

/// The views of name/value pairs.
pub open spec fn pairs_view(v: Seq<(String, String)>) -> Seq<(Seq<char>, Seq<char>)> {
    v.map_values(|p: (String, String)| (p.0@, p.1@))
}

/// The value of the first entry named `key`.
pub open spec fn env_lookup(env: Seq<(Seq<char>, Seq<char>)>, key: Seq<char>) -> Option<Seq<char>>
    decreases env.len(),
{
    if env.len() == 0 {
        None
    } else if env[0].0 == key {
        Some(env[0].1)
    } else {
        env_lookup(env.drop_first(), key)
    }
}

/// The trimmed value of a variable, or the fallback where it is missing or blank.
pub open spec fn trimmed_or(value: Option<Seq<char>>, fallback: Seq<char>) -> Seq<char> {
    match value {
        Some(v) => if trim_seq(v).len() == 0 {
            fallback
        } else {
            trim_seq(v)
        },
        None => fallback,
    }
}

/// `i` is the first position of an entry named `key`.
pub open spec fn first_key_at(env: Seq<(Seq<char>, Seq<char>)>, key: Seq<char>, i: int) -> bool {
    &&& 0 <= i < env.len()
    &&& env[i].0 == key
    &&& forall|k: int| 0 <= k < i ==> env[k].0 != key
}

/// Sets a variable: the first entry with that name takes the new value, or the entry is
/// appended.
pub open spec fn upserted(env: Seq<(Seq<char>, Seq<char>)>, key: Seq<char>, value: Seq<char>) -> Seq<
    (Seq<char>, Seq<char>),
> {
    if exists|i: int| first_key_at(env, key, i) {
        env.update(choose|i: int| first_key_at(env, key, i), (key, value))
    } else {
        env.push((key, value))
    }
}

/// Sets each variable of `extra` in turn.
pub open spec fn merge_env(env: Seq<(Seq<char>, Seq<char>)>, extra: Seq<(Seq<char>, Seq<char>)>) -> Seq<
    (Seq<char>, Seq<char>),
>
    decreases extra.len(),
{
    if extra.len() == 0 {
        env
    } else {
        merge_env(upserted(env, extra[0].0, extra[0].1), extra.drop_first())
    }
}

/// The value of the last entry named `key`, if any.
pub open spec fn last_value(entries: Seq<(Seq<char>, Seq<char>)>, key: Seq<char>) -> Option<Seq<char>>
    decreases entries.len(),
{
    if entries.len() == 0 {
        None
    } else {
        match last_value(entries.drop_first(), key) {
            Some(v) => Some(v),
            None => if entries[0].0 == key {
                Some(entries[0].1)
            } else {
                None
            },
        }
    }
}

proof fn lemma_lookup_first(env: Seq<(Seq<char>, Seq<char>)>, key: Seq<char>)
    ensures
        forall|j: int| first_key_at(env, key, j) ==> env_lookup(env, key) == Some(#[trigger] env[j].1),
        (forall|j: int| 0 <= j < env.len() ==> #[trigger] env[j].0 != key) ==> env_lookup(env, key)
            is None,
    decreases env.len(),
{
    if env.len() > 0 {
        let rest = env.drop_first();
        lemma_lookup_first(rest, key);
        assert forall|j: int| first_key_at(env, key, j) implies env_lookup(env, key) == Some(
            #[trigger] env[j].1,
        ) by {
            if j > 0 {
                assert(env[0].0 != key);
                assert(first_key_at(rest, key, j - 1)) by {
                    assert forall|k: int| 0 <= k < j - 1 implies rest[k].0 != key by {
                        assert(rest[k] == env[k + 1]);
                    }
                }
                assert(rest[j - 1] == env[j]);
            }
        }
        if forall|j: int| 0 <= j < env.len() ==> #[trigger] env[j].0 != key {
            assert forall|j: int| 0 <= j < rest.len() implies #[trigger] rest[j].0 != key by {
                assert(rest[j] == env[j + 1]);
            }
        }
    }
}

proof fn lemma_first_exists(env: Seq<(Seq<char>, Seq<char>)>, key: Seq<char>, j: int)
    requires
        0 <= j < env.len(),
        env[j].0 == key,
    ensures
        exists|i: int| first_key_at(env, key, i),
    decreases j,
{
    if exists|m: int| 0 <= m < j && env[m].0 == key {
        let m = choose|m: int| 0 <= m < j && env[m].0 == key;
        lemma_first_exists(env, key, m);
    } else {
        assert(first_key_at(env, key, j));
    }
}

proof fn lemma_lookup_upserted(
    env: Seq<(Seq<char>, Seq<char>)>,
    key: Seq<char>,
    value: Seq<char>,
    k: Seq<char>,
)
    ensures
        env_lookup(upserted(env, key, value), k) == if k == key {
            Some(value)
        } else {
            env_lookup(env, k)
        },
{
    let new = upserted(env, key, value);
    lemma_lookup_first(env, k);
    lemma_lookup_first(new, k);
    if exists|j: int| first_key_at(env, k, j) {
        let j = choose|j: int| first_key_at(env, k, j);
        assert(env_lookup(env, k) == Some(env[j].1));
    }
    if exists|i: int| first_key_at(env, key, i) {
        let i = choose|i: int| first_key_at(env, key, i);
        assert(new == env.update(i, (key, value)));
        if k == key {
            assert(first_key_at(new, k, i));
            assert(env_lookup(new, k) == Some(new[i].1));
        } else if exists|j: int| first_key_at(env, k, j) {
            let j = choose|j: int| first_key_at(env, k, j);
            assert(j != i);
            assert(first_key_at(new, k, j));
            assert(new[j] == env[j]);
            assert(env_lookup(new, k) == Some(new[j].1));
        } else {
            assert forall|j: int| 0 <= j < new.len() implies #[trigger] new[j].0 != k by {
                if j != i {
                    assert(new[j] == env[j]);
                    if env[j].0 == k {
                        lemma_first_exists(env, k, j);
                    }
                }
            }
            assert forall|j: int| 0 <= j < env.len() implies #[trigger] env[j].0 != k by {
                if env[j].0 == k {
                    lemma_first_exists(env, k, j);
                }
            }
        }
    } else {
        assert(new == env.push((key, value)));
        if k == key {
            assert forall|m: int| 0 <= m < env.len() implies #[trigger] env[m].0 != key by {
                if env[m].0 == key {
                    lemma_first_exists(env, key, m);
                }
            }
            assert(first_key_at(new, k, env.len() as int)) by {
                assert forall|m: int| 0 <= m < env.len() implies new[m].0 != k by {
                    assert(new[m] == env[m]);
                }
            }
            assert(env_lookup(new, k) == Some(new[env.len() as int].1));
        } else if exists|j: int| first_key_at(env, k, j) {
            let j = choose|j: int| first_key_at(env, k, j);
            assert(first_key_at(new, k, j)) by {
                assert forall|m: int| 0 <= m < j implies new[m].0 != k by {
                    assert(new[m] == env[m]);
                }
            }
            assert(new[j] == env[j]);
            assert(env_lookup(new, k) == Some(new[j].1));
        } else {
            assert forall|j: int| 0 <= j < new.len() implies #[trigger] new[j].0 != k by {
                if j < env.len() {
                    assert(new[j] == env[j]);
                    if env[j].0 == k {
                        lemma_first_exists(env, k, j);
                    }
                }
            }
            assert forall|j: int| 0 <= j < env.len() implies #[trigger] env[j].0 != k by {
                if env[j].0 == k {
                    lemma_first_exists(env, k, j);
                }
            }
        }
    }
}

/// Merging variables into an environment sets each of them: a variable that `extra` names
/// takes the value of its last entry there; every other variable keeps its value.
pub proof fn lemma_merge_env_lookup(
    env: Seq<(Seq<char>, Seq<char>)>,
    extra: Seq<(Seq<char>, Seq<char>)>,
    key: Seq<char>,
)
    ensures
        env_lookup(merge_env(env, extra), key) == match last_value(extra, key) {
            Some(v) => Some(v),
            None => env_lookup(env, key),
        },
    decreases extra.len(),
{
    if extra.len() > 0 {
        let next = upserted(env, extra[0].0, extra[0].1);
        lemma_merge_env_lookup(next, extra.drop_first(), key);
        lemma_lookup_upserted(env, extra[0].0, extra[0].1, key);
    }
}

fn copy_pairs(v: &Vec<(String, String)>) -> (r: Vec<(String, String)>)
    ensures
        pairs_view(r@) == pairs_view(v@),
{
    let mut out: Vec<(String, String)> = Vec::new();
    let mut i: usize = 0;
    while i < v.len()
        invariant
            i <= v.len(),
            pairs_view(out@) =~= pairs_view(v@.take(i as int)),
        decreases v.len() - i,
    {
        let p = (owned(v[i].0.as_str()), owned(v[i].1.as_str()));
        let ghost before = out@;
        out.push(p);
        assert(pairs_view(out@) =~= pairs_view(before).push((p.0@, p.1@)));
        assert(v@.take(i + 1) =~= v@.take(i as int).push(v@[i as int]));
        i = i + 1;
    }
    assert(v@.take(v.len() as int) =~= v@);
    out
}

fn find_key(env: &Vec<(String, String)>, key: &str) -> (r: Option<usize>)
    ensures
        match r {
            Some(i) => first_key_at(pairs_view(env@), key@, i as int),
            None => forall|k: int| 0 <= k < env@.len() ==> pairs_view(env@)[k].0 != key@,
        },
{
    let mut i: usize = 0;
    while i < env.len()
        invariant
            i <= env.len(),
            forall|k: int| 0 <= k < i ==> pairs_view(env@)[k].0 != key@,
        decreases env.len() - i,
    {
        if crate::text::str_eq(env[i].0.as_str(), key) {
            return Some(i);
        }
        i = i + 1;
    }
    None
}

fn upsert(env: &mut Vec<(String, String)>, key: &str, value: &str)
    ensures
        pairs_view(final(env)@) == upserted(pairs_view(old(env)@), key@, value@),
{
    let ghost e = pairs_view(env@);
    match find_key(env, key) {
        Some(i) => {
            proof {
                let j = choose|j: int| first_key_at(e, key@, j);
                assert(first_key_at(e, key@, j));
                if j < i {
                    assert(e[j].0 != key@);
                }
                if i < j {
                    assert(e[i as int].0 != key@);
                }
                assert(j == i);
            }
            env.set(i, (owned(key), owned(value)));
            assert(pairs_view(env@) =~= e.update(i as int, (key@, value@)));
        },
        None => {
            assert(!exists|i: int| first_key_at(e, key@, i));
            env.push((owned(key), owned(value)));
            assert(pairs_view(env@) =~= e.push((key@, value@)));
        },
    }
}

/// Sets every variable of `extra` in `env`, in order (see `merge_env`).
pub fn merge_shell_env(env: &mut Vec<(String, String)>, extra: &Vec<(String, String)>)
    ensures
        pairs_view(final(env)@) == merge_env(pairs_view(old(env)@), pairs_view(extra@)),
{
    let ghost goal = merge_env(pairs_view(env@), pairs_view(extra@));
    assert(pairs_view(extra@).skip(0) =~= pairs_view(extra@));
    let mut i: usize = 0;
    while i < extra.len()
        invariant
            i <= extra.len(),
            merge_env(pairs_view(env@), pairs_view(extra@).skip(i as int)) == goal,
        decreases extra.len() - i,
    {
        let ghost x = pairs_view(extra@).skip(i as int);
        assert(x.drop_first() =~= pairs_view(extra@).skip(i + 1));
        upsert(env, extra[i].0.as_str(), extra[i].1.as_str());
        i = i + 1;
    }
    assert(pairs_view(extra@).skip(extra.len() as int).len() == 0);
}

fn lookup(env: &Vec<(String, String)>, key: &str) -> (r: Option<String>)
    ensures
        match r {
            Some(v) => env_lookup(pairs_view(env@), key@) == Some(v@),
            None => env_lookup(pairs_view(env@), key@) == None::<Seq<char>>,
        },
{
    let ghost all = pairs_view(env@);
    assert(all.skip(0) =~= all);
    let mut i: usize = 0;
    while i < env.len()
        invariant
            i <= env.len(),
            all == pairs_view(env@),
            env_lookup(all, key@) == env_lookup(all.skip(i as int), key@),
        decreases env.len() - i,
    {
        assert(all.skip(i as int).drop_first() =~= all.skip(i + 1));
        if crate::text::str_eq(env[i].0.as_str(), key) {
            return Some(owned(env[i].1.as_str()));
        }
        i = i + 1;
    }
    None
}

fn env_or_default(env: &Vec<(String, String)>, key: &str, fallback: &str) -> (r: String)
    ensures
        r@ == trimmed_or(env_lookup(pairs_view(env@), key@), fallback@),
{
    match lookup(env, key) {
        Some(v) => {
            let t = trim(v.as_str());
            if t.as_str().unicode_len() == 0 {
                owned(fallback)
            } else {
                t
            }
        },
        None => owned(fallback),
    }
}

/// The environment of a shell session: the agent's own environment (on macOS with the
/// variables of the user's login shell set over it), then the terminal variables `TERM`,
/// `COLORTERM`, `TERM_PROGRAM`, `TERM_PROGRAM_VERSION` (and `ConEmuANSI` on Windows), each
/// taken trimmed from the agent's environment or given its default.
pub open spec fn shell_env_for(
    process_env: Seq<(Seq<char>, Seq<char>)>,
    login_env: Seq<(Seq<char>, Seq<char>)>,
    platform: PlatformId,
) -> Seq<(Seq<char>, Seq<char>)> {
    let base = if platform == PlatformId::Macos {
        merge_env(process_env, login_env)
    } else {
        process_env
    };
    let terminal = base + seq![
        ("TERM"@, trimmed_or(env_lookup(process_env, "TERM"@), "xterm-256color"@)),
        ("COLORTERM"@, trimmed_or(env_lookup(process_env, "COLORTERM"@), "truecolor"@)),
        (
            "TERM_PROGRAM"@,
            trimmed_or(env_lookup(process_env, "TERM_PROGRAM"@), "remote-terminal-cloud"@),
        ),
        (
            "TERM_PROGRAM_VERSION"@,
            trimmed_or(env_lookup(process_env, "TERM_PROGRAM_VERSION"@), "agent"@),
        ),
    ];
    if platform == PlatformId::Windows {
        terminal.push(("ConEmuANSI"@, trimmed_or(env_lookup(process_env, "ConEmuANSI"@), "ON"@)))
    } else {
        terminal
    }
}

fn push_var(env: &mut Vec<(String, String)>, source: &Vec<(String, String)>, key: &str, fallback: &str)
    ensures
        pairs_view(final(env)@) == pairs_view(old(env)@).push(
            (key@, trimmed_or(env_lookup(pairs_view(source@), key@), fallback@)),
        ),
{
    let value = env_or_default(source, key, fallback);
    let ghost before = env@;
    env.push((owned(key), value));
    assert(pairs_view(env@) =~= pairs_view(before).push((key@, value@)));
}

/// Builds the environment of a shell session (see `shell_env_for`); `login_env` is what
/// the user's login shell reports, used on macOS only.
pub fn build_shell_env(
    process_env: &Vec<(String, String)>,
    login_env: &Vec<(String, String)>,
    platform: PlatformId,
) -> (r: Vec<(String, String)>)
    ensures
        pairs_view(r@) == shell_env_for(pairs_view(process_env@), pairs_view(login_env@), platform),
{
    let mut env = copy_pairs(process_env);
    if platform == PlatformId::Macos {
        merge_shell_env(&mut env, login_env);
    }
    let ghost base = pairs_view(env@);
    push_var(&mut env, process_env, "TERM", "xterm-256color");
    push_var(&mut env, process_env, "COLORTERM", "truecolor");
    push_var(&mut env, process_env, "TERM_PROGRAM", "remote-terminal-cloud");
    push_var(&mut env, process_env, "TERM_PROGRAM_VERSION", "agent");
    let ghost p = pairs_view(process_env@);
    assert(pairs_view(env@) =~= base + seq![
        ("TERM"@, trimmed_or(env_lookup(p, "TERM"@), "xterm-256color"@)),
        ("COLORTERM"@, trimmed_or(env_lookup(p, "COLORTERM"@), "truecolor"@)),
        ("TERM_PROGRAM"@, trimmed_or(env_lookup(p, "TERM_PROGRAM"@), "remote-terminal-cloud"@)),
        ("TERM_PROGRAM_VERSION"@, trimmed_or(env_lookup(p, "TERM_PROGRAM_VERSION"@), "agent"@)),
    ]);
    if platform == PlatformId::Windows {
        push_var(&mut env, process_env, "ConEmuANSI", "ON");
    }
    env
}

/// Variables of the login shell that describe the shell process itself and are not
/// carried into sessions.
pub open spec fn skipped_login_key(key: Seq<char>) -> bool {
    key == "SHLVL"@ || key == "ZSH_EVAL_CONTEXT"@ || key == "BASH_REMATCH"@ || key
        == "BASH_SUBSHELL"@ || key == "_"@ || key == "PWD"@ || key == "OLDPWD"@
}

/// `i` is the position of the first `=` in a line.
pub open spec fn first_equals_at(line: Seq<char>, i: int) -> bool {
    &&& 0 <= i < line.len()
    &&& line[i] == '='
    &&& forall|k: int| 0 <= k < i ==> line[k] != '='
}

/// The variable a line of `env` output sets: the text before the first `=` names it, the
/// text after is its value; lines without `=`, with an empty name or naming a skipped
/// variable set nothing.
pub open spec fn env_line_entry(line: Seq<char>) -> Option<(Seq<char>, Seq<char>)> {
    if exists|i: int| first_equals_at(line, i) {
        let p = choose|i: int| first_equals_at(line, i);
        let key = line.take(p);
        if key.len() > 0 && !skipped_login_key(key) {
            Some((key, line.skip(p + 1)))
        } else {
            None
        }
    } else {
        None
    }
}

/// The variables set by a sequence of lines, in order.
pub open spec fn env_entries(lines: Seq<Seq<char>>) -> Seq<(Seq<char>, Seq<char>)>
    decreases lines.len(),
{
    if lines.len() == 0 {
        Seq::empty()
    } else {
        let rest = env_entries(lines.drop_last());
        match env_line_entry(lines.last()) {
            Some(e) => rest.push(e),
            None => rest,
        }
    }
}

fn is_skipped_login_key(key: &str) -> (r: bool)
    ensures
        r == skipped_login_key(key@),
{
    crate::text::str_eq(key, "SHLVL") || crate::text::str_eq(key, "ZSH_EVAL_CONTEXT")
        || crate::text::str_eq(key, "BASH_REMATCH") || crate::text::str_eq(key, "BASH_SUBSHELL")
        || crate::text::str_eq(key, "_") || crate::text::str_eq(key, "PWD")
        || crate::text::str_eq(key, "OLDPWD")
}

fn line_entry(line: &str) -> (r: Option<(String, String)>)
    ensures
        match r {
            Some(p) => env_line_entry(line@) == Some((p.0@, p.1@)),
            None => env_line_entry(line@) == None::<(Seq<char>, Seq<char>)>,
        },
{
    let n = line.unicode_len();
    let mut i: usize = 0;
    while i < n
        invariant
            n == line@.len(),
            i <= n,
            forall|k: int| 0 <= k < i ==> line@[k] != '=',
        decreases n - i,
    {
        if line.get_char(i) == '=' {
            proof {
                let j = choose|j: int| first_equals_at(line@, j);
                assert(first_equals_at(line@, i as int));
                if j < i {
                    assert(line@[j] != '=');
                }
                if i < j {
                    assert(line@[i as int] != '=');
                }
            }
            let key = line.substring_char(0, i);
            assert(key@ =~= line@.take(i as int));
            if key.unicode_len() == 0 || is_skipped_login_key(key) {
                return None;
            }
            let value = line.substring_char(i + 1, n);
            assert(value@ =~= line@.skip(i + 1));
            return Some((owned(key), owned(value)));
        }
        i = i + 1;
    }
    assert(!exists|j: int| first_equals_at(line@, j));
    None
}

/// Reads the variables from the output of `env` run in the user's login shell (see
/// `env_entries`).
pub fn parse_env_output(output: &str) -> (r: Vec<(String, String)>)
    ensures
        pairs_view(r@) == env_entries(crate::text::lines_seq(output@)),
{
    let lines = crate::text::text_lines(output);
    let ghost ls = crate::text::strings_view(lines@);
    let mut out: Vec<(String, String)> = Vec::new();
    let mut i: usize = 0;
    while i < lines.len()
        invariant
            i <= lines.len(),
            ls == crate::text::strings_view(lines@),
            pairs_view(out@) == env_entries(ls.take(i as int)),
        decreases lines.len() - i,
    {
        assert(ls.take(i + 1).drop_last() =~= ls.take(i as int));
        assert(ls.take(i + 1).last() == lines@[i as int]@);
        let ghost before = out@;
        match line_entry(lines[i].as_str()) {
            Some(p) => {
                let ghost pv = (p.0@, p.1@);
                out.push(p);
                assert(pairs_view(out@) =~= pairs_view(before).push(pv));
            },
            None => {},
        }
        i = i + 1;
    }
    assert(ls.take(lines.len() as int) =~= ls);
    out
}

/// What a session start request leads to: the launch and the starting directory, or the
/// error reported for the session.
#[derive(Debug)]
pub struct SessionStartPlan {
    pub launch: ShellLaunch,
    pub working_directory: WorkingDirectoryPlan,
}

/// Decides how a requested session starts. A session id already in use is refused with
/// `Session already exists.`; a shell the platform does not offer is refused with the
/// message of `shell_launch_for`; otherwise the launch and the starting directory are
/// those of `shell_launch_for` and `working_directory_plan`.
pub fn plan_session_start(
    session_exists: bool,
    requested: ShellType,
    default_shell: ShellType,
    platform: PlatformId,
    shell_env: Option<String>,
    working_directory: &str,
    probe: DirectoryProbe,
) -> (r: Result<SessionStartPlan, String>)
    ensures
        session_exists ==> (r matches Err(e) && e@ == "Session already exists."@),
        !session_exists ==> match shell_launch_for(
            requested,
            default_shell,
            platform,
            match shell_env {
                Some(v) => Some(v@),
                None => None,
            },
        ) {
            Err(m) => (r matches Err(e) && e@ == m),
            Ok(l) => (r matches Ok(plan) && launch_view(plan.launch) == l
                && working_directory_plan(working_directory@, probe) == (
                match plan.working_directory.path {
                    Some(p) => Some(p@),
                    None => None,
                },
                match plan.working_directory.warning {
                    Some(w) => Some(w@),
                    None => None,
                },
            )),
        },
{
    if session_exists {
        proof {
            reveal_strlit("Session already exists.");
        }
        return Err(owned("Session already exists."));
    }
    match resolve_shell_launch(requested, default_shell, platform, shell_env) {
        Err(e) => Err(e),
        Ok(launch) => {
            let working_directory = plan_working_directory(working_directory, probe);
            Ok(SessionStartPlan { launch, working_directory })
        },
    }
}

/// A directory entry as its name and path.
pub open spec fn entry_view(e: DirectoryEntry) -> (Seq<char>, Seq<char>) {
    (e.name@, e.path@)
}

/// The views of directory entries.
pub open spec fn entries_view(v: Seq<DirectoryEntry>) -> Seq<(Seq<char>, Seq<char>)> {
    v.map_values(|e: DirectoryEntry| entry_view(e))
}

/// Entries are ordered by their ASCII-lower-cased names.
pub open spec fn entry_key(e: (Seq<char>, Seq<char>)) -> Seq<char> {
    ascii_lower_seq(e.0)
}

/// Inserts an entry into a listing behind every entry whose key is not greater.
pub open spec fn inserted_by_name(sorted: Seq<(Seq<char>, Seq<char>)>, e: (Seq<char>, Seq<char>)) -> Seq<
    (Seq<char>, Seq<char>),
>
    decreases sorted.len(),
{
    if sorted.len() == 0 {
        seq![e]
    } else if seq_less(entry_key(e), entry_key(sorted.last())) {
        inserted_by_name(sorted.drop_last(), e).push(sorted.last())
    } else {
        sorted.push(e)
    }
}

/// Entries in the order of a stable sort by ASCII-lower-cased name (`sort_by_key`).
pub open spec fn sorted_by_name(items: Seq<(Seq<char>, Seq<char>)>) -> Seq<(Seq<char>, Seq<char>)>
    decreases items.len(),
{
    if items.len() == 0 {
        Seq::empty()
    } else {
        inserted_by_name(sorted_by_name(items.drop_last()), items.last())
    }
}

/// No entry's key is below the key of an entry before it.
pub open spec fn ordered_by_name(s: Seq<(Seq<char>, Seq<char>)>) -> bool {
    forall|i: int, j: int|
        0 <= i < j < s.len() ==> !seq_less(entry_key(#[trigger] s[j]), entry_key(#[trigger] s[i]))
}

proof fn lemma_not_less_chain(a: Seq<char>, b: Seq<char>, c: Seq<char>)
    requires
        !seq_less(a, b),
        !seq_less(b, c),
    ensures
        !seq_less(a, c),
{
    if seq_less(a, c) {
        if b == c {
        } else {
            lemma_seq_less_total(b, c);
            lemma_seq_less_transitive(a, c, b);
        }
    }
}

proof fn lemma_inserted_by_name(s: Seq<(Seq<char>, Seq<char>)>, e: (Seq<char>, Seq<char>))
    ensures
        inserted_by_name(s, e).to_multiset() =~= s.to_multiset().insert(e),
        ordered_by_name(s) ==> ordered_by_name(inserted_by_name(s, e)),
    decreases s.len(),
{
    broadcast use vstd::seq_lib::group_to_multiset_ensures, vstd::multiset::group_multiset_axioms;

    if s.len() == 0 {
        assert(seq![e] =~= Seq::<(Seq<char>, Seq<char>)>::empty().push(e));
        assert(s =~= Seq::<(Seq<char>, Seq<char>)>::empty());
    } else {
        let last = s.last();
        let front = s.drop_last();
        assert(s =~= front.push(last));
        if seq_less(entry_key(e), entry_key(last)) {
            let inner = inserted_by_name(front, e);
            lemma_inserted_by_name(front, e);
            let r = inner.push(last);
            assert(r.to_multiset() =~= inner.to_multiset().insert(last));
            if ordered_by_name(s) {
                assert(ordered_by_name(front));
                assert forall|i: int| 0 <= i < inner.len() implies !seq_less(
                    entry_key(last),
                    entry_key(#[trigger] inner[i]),
                ) by {
                    let x = inner[i];
                    assert(inner.contains(x));
                    assert(inner.to_multiset().count(x) > 0);
                    if x == e {
                        lemma_seq_less_asymmetric(entry_key(e), entry_key(last));
                    } else {
                        assert(front.to_multiset().count(x) > 0);
                        assert(front.contains(x));
                        let m = choose|m: int| 0 <= m < front.len() && front[m] == x;
                        assert(s[m] == x);
                        assert(s[s.len() - 1] == last);
                    }
                }
                assert forall|i: int, j: int| 0 <= i < j < r.len() implies !seq_less(
                    entry_key(#[trigger] r[j]),
                    entry_key(#[trigger] r[i]),
                ) by {
                    if j == r.len() - 1 {
                        assert(r[j] == last);
                        assert(r[i] == inner[i]);
                    } else {
                        assert(r[j] == inner[j]);
                        assert(r[i] == inner[i]);
                    }
                }
            }
        } else {
            let r = s.push(e);
            if ordered_by_name(s) {
                assert forall|i: int, j: int| 0 <= i < j < r.len() implies !seq_less(
                    entry_key(#[trigger] r[j]),
                    entry_key(#[trigger] r[i]),
                ) by {
                    if j == r.len() - 1 {
                        assert(r[j] == e);
                        assert(r[i] == s[i]);
                        if i < s.len() - 1 {
                            assert(!seq_less(entry_key(s[s.len() - 1]), entry_key(s[i])));
                            lemma_not_less_chain(entry_key(e), entry_key(last), entry_key(s[i]));
                        }
                    } else {
                        assert(r[j] == s[j]);
                        assert(r[i] == s[i]);
                    }
                }
            }
        }
    }
}

/// Sorting a listing keeps exactly the entries it was given, each as often as it occurred,
/// and puts them in order of their keys.
pub proof fn lemma_sorted_by_name_sorts(items: Seq<(Seq<char>, Seq<char>)>)
    ensures
        sorted_by_name(items).to_multiset() =~= items.to_multiset(),
        ordered_by_name(sorted_by_name(items)),
    decreases items.len(),
{
    broadcast use vstd::seq_lib::group_to_multiset_ensures, vstd::multiset::group_multiset_axioms;

    if items.len() == 0 {
        assert(sorted_by_name(items) =~= Seq::<(Seq<char>, Seq<char>)>::empty());
    } else {
        let front = items.drop_last();
        lemma_sorted_by_name_sorts(front);
        lemma_inserted_by_name(sorted_by_name(front), items.last());
        assert(items =~= front.push(items.last()));
    }
}

proof fn lemma_insert_at(sorted: Seq<(Seq<char>, Seq<char>)>, e: (Seq<char>, Seq<char>), j: int)
    requires
        0 <= j <= sorted.len(),
        forall|k: int| j <= k < sorted.len() ==> seq_less(entry_key(e), entry_key(#[trigger] sorted[k])),
        j > 0 ==> !seq_less(entry_key(e), entry_key(sorted[j - 1])),
    ensures
        inserted_by_name(sorted, e) == sorted.take(j).push(e) + sorted.skip(j),
    decreases sorted.len(),
{
    if sorted.len() == 0 {
        assert(sorted.take(j).push(e) + sorted.skip(j) =~= seq![e]);
    } else if j == sorted.len() {
        assert(sorted.take(j) =~= sorted);
        assert(sorted.take(j).push(e) + sorted.skip(j) =~= sorted.push(e));
    } else {
        assert(seq_less(entry_key(e), entry_key(sorted[sorted.len() - 1])));
        lemma_insert_at(sorted.drop_last(), e, j);
        assert(sorted.drop_last().take(j) =~= sorted.take(j));
        assert(sorted.take(j).push(e) + sorted.skip(j) =~= (sorted.drop_last().take(j).push(e)
            + sorted.drop_last().skip(j)).push(sorted.last()));
    }
}

fn copy_entry(e: &DirectoryEntry) -> (r: DirectoryEntry)
    ensures
        entry_view(r) == entry_view(*e),
{
    DirectoryEntry { name: owned(e.name.as_str()), path: owned(e.path.as_str()) }
}

/// Orders directory entries by their ASCII-lower-cased names, keeping entries with equal
/// keys in their original order (see `sorted_by_name`).
pub fn sort_directory_entries(items: &Vec<DirectoryEntry>) -> (r: Vec<DirectoryEntry>)
    ensures
        entries_view(r@) == sorted_by_name(entries_view(items@)),
{
    let ghost all = entries_view(items@);
    let mut out: Vec<DirectoryEntry> = Vec::new();
    let mut keys: Vec<Vec<char>> = Vec::new();
    let mut i: usize = 0;
    while i < items.len()
        invariant
            i <= items.len(),
            all == entries_view(items@),
            entries_view(out@) == sorted_by_name(all.take(i as int)),
            keys@.len() == out@.len(),
            forall|k: int| 0 <= k < keys@.len() ==> (#[trigger] keys@[k])@ == entry_key(
                entry_view(out@[k]),
            ),
        decreases items.len() - i,
    {
        let e = copy_entry(&items[i]);
        let key = chars_of(ascii_lowercase(e.name.as_str()).as_str());
        let ghost ev = entry_view(e);
        let ghost cur = entries_view(out@);
        let mut j: usize = out.len();
        while j > 0 && chars_less(&key, &keys[j - 1])
            invariant
                j <= out@.len(),
                keys@.len() == out@.len(),
                cur == entries_view(out@),
                key@ == entry_key(ev),
                forall|k: int| 0 <= k < keys@.len() ==> (#[trigger] keys@[k])@ == entry_key(
                    entry_view(out@[k]),
                ),
                forall|k: int| j <= k < cur.len() ==> seq_less(entry_key(ev), entry_key(#[trigger] cur[k])),
            decreases j,
        {
            assert(keys@[j - 1]@ == entry_key(cur[j - 1]));
            j = j - 1;
        }
        proof {
            if j > 0 {
                assert(keys@[j - 1]@ == entry_key(cur[j - 1]));
            }
            lemma_insert_at(cur, ev, j as int);
            assert(all.take(i + 1).drop_last() =~= all.take(i as int));
            assert(all.take(i + 1).last() == ev);
        }
        let ghost old_keys = keys@;
        out.insert(j, e);
        keys.insert(j, key);
        proof {
            assert(entries_view(out@) =~= cur.take(j as int).push(ev) + cur.skip(j as int));
            assert forall|k: int| 0 <= k < keys@.len() implies (#[trigger] keys@[k])@ == entry_key(
                entry_view(out@[k]),
            ) by {
                if k < j {
                    assert(keys@[k] == old_keys[k]);
                } else if k > j {
                    assert(keys@[k] == old_keys[k - 1]);
                }
            }
        }
        i = i + 1;
    }
    assert(all.take(items.len() as int) =~= all);
    out
}

/// A listing of a directory: its entries sorted (see `sorted_by_name`), its path, and its
/// parent unless the parent is the directory itself.
pub fn directory_listing(current_path: String, parent_path: Option<String>, items: &Vec<
    DirectoryEntry,
>) -> (r: DirectoryBrowseResultMessage)
    ensures
        r.message_type@ == "directory-browse-result"@,
        r.request_id@ == Seq::<char>::empty(),
        r.ok,
        r.message@ == Seq::<char>::empty(),
        r.current_path@ == current_path@,
        r.parent_path@ == match parent_path {
            Some(p) => if p@ == current_path@ {
                Seq::<char>::empty()
            } else {
                p@
            },
            None => Seq::<char>::empty(),
        },
        entries_view(r.items@) == sorted_by_name(entries_view(items@)),
{
    let parent = match parent_path {
        Some(p) => if str_eq(p.as_str(), current_path.as_str()) {
            String::new()
        } else {
            p
        },
        None => String::new(),
    };
    DirectoryBrowseResultMessage {
        message_type: owned("directory-browse-result"),
        request_id: String::new(),
        ok: true,
        message: String::new(),
        current_path,
        parent_path: parent,
        items: sort_directory_entries(items),
    }
}

/// The drive letter with the given index (`A` for zero).
pub open spec fn drive_letter(i: int) -> char {
    (65 + i) as char
}

/// The drives of a Windows machine as entries named `X:` with path `X:\`, for each letter
/// `A` to `Z` (by index) that is present.
pub open spec fn drive_entries(present: Seq<bool>) -> Seq<(Seq<char>, Seq<char>)>
    decreases present.len(),
{
    if present.len() == 0 {
        Seq::empty()
    } else {
        let rest = drive_entries(present.drop_last());
        let i = present.len() - 1;
        if i < 26 && present.last() {
            rest.push((seq![drive_letter(i), ':'], seq![drive_letter(i), ':', '\\']))
        } else {
            rest
        }
    }
}

/// The top of the directory tree on Windows: the drives that exist, no path and no
/// parent; `present[i]` tells whether the drive with letter index `i` exists (indices from
/// 26 on name no drive).
pub fn windows_root_listing(present: &[bool]) -> (r: DirectoryBrowseResultMessage)
    ensures
        r.message_type@ == "directory-browse-result"@,
        r.request_id@ == Seq::<char>::empty(),
        r.ok,
        r.message@ == Seq::<char>::empty(),
        r.current_path@ == Seq::<char>::empty(),
        r.parent_path@ == Seq::<char>::empty(),
        entries_view(r.items@) == drive_entries(present@),
{
    let mut items: Vec<DirectoryEntry> = Vec::new();
    let mut i: usize = 0;
    while i < present.len()
        invariant
            i <= present@.len(),
            entries_view(items@) == drive_entries(present@.take(i as int)),
        decreases present@.len() - i,
    {
        assert(present@.take(i + 1).drop_last() =~= present@.take(i as int));
        if i < 26 && present[i] {
            let letter = ((65 + i) as u8) as char;
            let mut name_chars: Vec<char> = Vec::new();
            name_chars.push(letter);
            name_chars.push(':');
            let mut path_chars: Vec<char> = Vec::new();
            path_chars.push(letter);
            path_chars.push(':');
            path_chars.push('\\');
            let e = DirectoryEntry {
                name: crate::text::string_from_chars(&name_chars),
                path: crate::text::string_from_chars(&path_chars),
            };
            assert(letter == drive_letter(i as int));
            let ghost before = items@;
            items.push(e);
            assert(entries_view(items@) =~= entries_view(before).push(entry_view(e)));
            assert(name_chars@ =~= seq![drive_letter(i as int), ':']);
            assert(path_chars@ =~= seq![drive_letter(i as int), ':', '\\']);
        }
        i = i + 1;
    }
    assert(present@.take(present@.len() as int) =~= present@);
    DirectoryBrowseResultMessage {
        message_type: owned("directory-browse-result"),
        request_id: String::new(),
        ok: true,
        message: String::new(),
        current_path: String::new(),
        parent_path: String::new(),
        items,
    }
}

} // verus!
