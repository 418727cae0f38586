//! Decisions of the Windows installer helper: which action is meant, which install root
//! and token it works with, and which running agent processes belong to the install root
//! when the service is stopped.
use vstd::prelude::*;

use crate::config::opt_view;
use crate::service::ServiceState;
use crate::text::{
    ascii_lower_char, contains, contains_seq, find, first_occurrence, is_blank, is_blank_seq,
    lines_seq, owned, parse_u64, parsed_u64, str_eq, strings_view, text_lines, trim, trim_seq,
};

verus! {

/// The actions of `rtc-agent-installer windows`.
#[derive(Debug, Clone, Copy, PartialEq, Eq, Structural)]
pub enum InstallerAction {
    Help,
    InitConfig,
    SaveToken,
    Start,
    Stop,
    Restart,
    Install,
    Uninstall,
    OpenConfigDir,
    OpenLogs,
    Paths,
    Status,
}

/// The action a name stands for, with its aliases (`--help`, `-h`, `start-service`, ...).
pub open spec fn installer_action_named(name: Seq<char>) -> Option<InstallerAction> {
    if name == "help"@ || name == "--help"@ || name == "-h"@ {
        Some(InstallerAction::Help)
    } else if name == "init-config"@ {
        Some(InstallerAction::InitConfig)
    } else if name == "save-token"@ {
        Some(InstallerAction::SaveToken)
    } else if name == "start"@ || name == "start-service"@ {
        Some(InstallerAction::Start)
    } else if name == "stop"@ || name == "stop-service"@ {
        Some(InstallerAction::Stop)
    } else if name == "restart"@ || name == "restart-service"@ {
        Some(InstallerAction::Restart)
    } else if name == "install"@ || name == "install-service"@ {
        Some(InstallerAction::Install)
    } else if name == "uninstall"@ || name == "uninstall-service"@ {
        Some(InstallerAction::Uninstall)
    } else if name == "open-config-dir"@ {
        Some(InstallerAction::OpenConfigDir)
    } else if name == "open-logs"@ {
        Some(InstallerAction::OpenLogs)
    } else if name == "paths"@ {
        Some(InstallerAction::Paths)
    } else if name == "status"@ {
        Some(InstallerAction::Status)
    } else {
        None
    }
}

/// Reads the installer action (`help` when none is given); an unknown one is refused with
/// `unknown windows installer action: <name>`.
pub fn parse_installer_action(action: Option<String>) -> (r: Result<InstallerAction, String>)
    ensures
        ({
            let name = match action {
                Some(a) => a@,
                None => "help"@,
            };
            match installer_action_named(name) {
                Some(a) => r == Ok::<InstallerAction, String>(a),
                None => (r matches Err(e) && e@ == "unknown windows installer action: "@ + name),
            }
        }),
{
    let name = match action {
        Some(a) => a,
        None => owned("help"),
    };
    let n = name.as_str();
    if str_eq(n, "help") || str_eq(n, "--help") || str_eq(n, "-h") {
        Ok(InstallerAction::Help)
    } else if str_eq(n, "init-config") {
        Ok(InstallerAction::InitConfig)
    } else if str_eq(n, "save-token") {
        Ok(InstallerAction::SaveToken)
    } else if str_eq(n, "start") || str_eq(n, "start-service") {
        Ok(InstallerAction::Start)
    } else if str_eq(n, "stop") || str_eq(n, "stop-service") {
        Ok(InstallerAction::Stop)
    } else if str_eq(n, "restart") || str_eq(n, "restart-service") {
        Ok(InstallerAction::Restart)
    } else if str_eq(n, "install") || str_eq(n, "install-service") {
        Ok(InstallerAction::Install)
    } else if str_eq(n, "uninstall") || str_eq(n, "uninstall-service") {
        Ok(InstallerAction::Uninstall)
    } else if str_eq(n, "open-config-dir") {
        Ok(InstallerAction::OpenConfigDir)
    } else if str_eq(n, "open-logs") {
        Ok(InstallerAction::OpenLogs)
    } else if str_eq(n, "paths") {
        Ok(InstallerAction::Paths)
    } else if str_eq(n, "status") {
        Ok(InstallerAction::Status)
    } else {
        let mut e = owned("unknown windows installer action: ");
        e.append(n);
        Err(e)
    }
}

/// The install root the installer works with: the one given (trimmed) unless it is blank,
/// else the default (the installer's own directory).
pub fn installer_install_root(given: &Option<String>, default_root: &str) -> (r: String)
    ensures
        r@ == match *given {
            Some(g) => if is_blank_seq(g@) {
                default_root@
            } else {
                trim_seq(g@)
            },
            None => default_root@,
        },
{
    match given {
        Some(g) => if is_blank(g.as_str()) {
            owned(default_root)
        } else {
            trim(g.as_str())
        },
        None => owned(default_root),
    }
}

/// The token `save-token` saves: the token argument, else the first positional argument,
/// trimmed; a blank one is refused.
pub fn save_token_value(token: &Option<String>, first_argument: &Option<String>) -> (r: Result<
    String,
    String,
>)
    ensures
        ({
            let t = match *token {
                Some(t) => t@,
                None => match *first_argument {
                    Some(a) => a@,
                    None => Seq::<char>::empty(),
                },
            };
            if is_blank_seq(t) {
                r matches Err(e) && e@ == "windows save-token requires a token value"@
            } else {
                r matches Ok(v) && v@ == trim_seq(t)
            }
        }),
{
    let t = match token {
        Some(t) => owned(t.as_str()),
        None => match first_argument {
            Some(a) => owned(a.as_str()),
            None => String::new(),
        },
    };
    if is_blank(t.as_str()) {
        Err(owned("windows save-token requires a token value"))
    } else {
        Ok(trim(t.as_str()))
    }
}

/// The service has come to rest: it is stopped or no longer installed.
pub fn service_at_rest(state: &ServiceState) -> (r: bool)
    ensures
        r == (*state is Stopped || *state is Missing),
{
    match state {
        ServiceState::Stopped | ServiceState::Missing => true,
        _ => false,
    }
}

/// A text without the given character at either end (`str::trim_matches` with a `char`).
pub open spec fn strip_char(s: Seq<char>, c: char) -> Seq<char>
    decreases s.len(),
{
    if s.len() > 0 && s[0] == c {
        strip_char(s.drop_first(), c)
    } else if s.len() > 0 && s.last() == c {
        strip_char(s.drop_last(), c)
    } else {
        s
    }
}

/// Splits at every occurrence of a non-empty pattern (`str::split` with a string).
pub open spec fn split_on(s: Seq<char>, pat: Seq<char>) -> Seq<Seq<char>>
    decreases s.len(),
{
    if pat.len() == 0 || !(exists|i: int| first_occurrence(s, pat, i)) {
        seq![s]
    } else {
        let i = choose|i: int| first_occurrence(s, pat, i);
        seq![s.take(i)] + split_on(s.skip(i + pat.len()), pat)
    }
}

/// The pid on a line of `tasklist /FO CSV /NH` output: the line trimmed of quotes and split
/// at `","`, the second field trimmed and read as a 32-bit number.
pub open spec fn csv_line_pid(line: Seq<char>) -> Option<u32> {
    let fields = split_on(strip_char(line, '"'), "\",\""@);
    if fields.len() >= 2 {
        match parsed_u64(trim_seq(fields[1])) {
            Some(v) => if v <= u32::MAX {
                Some(v as u32)
            } else {
                None
            },
            None => None,
        }
    } else {
        None
    }
}

/// The pids listed by `tasklist /FO CSV /NH`, in order, from its lines that are not blank.
pub open spec fn csv_pids(lines: Seq<Seq<char>>) -> Seq<u32>
    decreases lines.len(),
{
    if lines.len() == 0 {
        Seq::empty()
    } else {
        let rest = csv_pids(lines.drop_last());
        if is_blank_seq(lines.last()) {
            rest
        } else {
            match csv_line_pid(lines.last()) {
                Some(p) => rest.push(p),
                None => rest,
            }
        }
    }
}

fn strip_quotes(line: &str) -> (r: String)
    ensures
        r@ == strip_char(line@, '"'),
{
    let n = line.unicode_len();
    let mut i: usize = 0;
    let mut j: usize = n;
    assert(line@.subrange(0, n as int) =~= line@);
    while i < j && line.get_char(i) == '"'
        invariant
            i <= j <= n,
            n == line@.len(),
            j == n,
            strip_char(line@, '"') == strip_char(line@.subrange(i as int, j as int), '"'),
        decreases j - i,
    {
        assert(line@.subrange(i as int, j as int).drop_first() =~= line@.subrange(i + 1, j as int));
        i = i + 1;
    }
    while j > i && line.get_char(j - 1) == '"'
        invariant
            i <= j <= n,
            n == line@.len(),
            i < j ==> line@[i as int] != '"',
            strip_char(line@, '"') == strip_char(line@.subrange(i as int, j as int), '"'),
        decreases j,
    {
        assert(line@.subrange(i as int, j as int).drop_last() =~= line@.subrange(i as int, j - 1));
        j = j - 1;
    }
    let kept = line.substring_char(i, j);
    proof {
        let k = line@.subrange(i as int, j as int);
        if k.len() > 0 {
            assert(k[0] == line@[i as int]);
            assert(k.last() == line@[j - 1]);
        }
        assert(strip_char(k, '"') == k);
    }
    owned(kept)
}

fn split_fields(text: &str) -> (r: Vec<String>)
    ensures
        strings_view(r@) == split_on(text@, "\",\""@),
{
    proof {
        reveal_strlit("\",\"");
    }
    let mut fields: Vec<String> = Vec::new();
    let mut rest = owned(text);
    let mut done = false;
    while !done
        invariant
            "\",\""@.len() == 3,
            !done ==> strings_view(fields@) + split_on(rest@, "\",\""@) == split_on(text@, "\",\""@),
            done ==> strings_view(fields@) == split_on(text@, "\",\""@),
        decreases rest@.len() + (if done {
            0int
        } else {
            1int
        }),
    {
        match find(rest.as_str(), "\",\"") {
            Some(i) => {
                let ghost r = rest@;
                proof {
                    let k = choose|k: int| first_occurrence(r, "\",\""@, k);
                    if k < i {
                        assert(!crate::text::occurs_at(r, "\",\""@, k));
                    }
                    if i < k {
                        assert(!crate::text::occurs_at(r, "\",\""@, i as int));
                    }
                }
                let n = rest.as_str().unicode_len();
                let head = owned(rest.as_str().substring_char(0, i));
                let tail = owned(rest.as_str().substring_char(i + 3, n));
                assert(head@ =~= r.take(i as int));
                assert(tail@ =~= r.skip(i + 3));
                let ghost before = fields@;
                fields.push(head);
                assert(strings_view(fields@) =~= strings_view(before).push(head@));
                assert(strings_view(fields@) + split_on(tail@, "\",\""@) =~= strings_view(before)
                    + split_on(r, "\",\""@));
                rest = tail;
            },
            None => {
                let ghost before = fields@;
                let ghost r = rest@;
                fields.push(owned(rest.as_str()));
                assert(strings_view(fields@) =~= strings_view(before) + split_on(r, "\",\""@));
                done = true;
            },
        }
    }
    fields
}

/// Reads the pid from a line of `tasklist` CSV output (see `csv_line_pid`).
pub fn tasklist_line_pid(line: &str) -> (r: Option<u32>)
    ensures
        r == csv_line_pid(line@),
{
    let stripped = strip_quotes(line);
    let fields = split_fields(stripped.as_str());
    if fields.len() < 2 {
        return None;
    }
    let t = trim(fields[1].as_str());
    match parse_u64(t.as_str()) {
        Some(v) => if v <= 4294967295 {
            Some(v as u32)
        } else {
            None
        },
        None => None,
    }
}

/// Reads the pids from `tasklist /FO CSV /NH` output (see `csv_pids`).
pub fn tasklist_csv_pids(output: &str) -> (r: Vec<u32>)
    ensures
        r@ == csv_pids(lines_seq(output@)),
{
    let lines = text_lines(output);
    let ghost ls = strings_view(lines@);
    let mut out: Vec<u32> = Vec::new();
    let mut i: usize = 0;
    while i < lines.len()
        invariant
            i <= lines@.len(),
            ls == strings_view(lines@),
            out@ == csv_pids(ls.take(i as int)),
        decreases lines@.len() - i,
    {
        assert(ls.take(i + 1).drop_last() =~= ls.take(i as int));
        assert(ls.take(i + 1).last() == lines@[i as int]@);
        if !is_blank(lines[i].as_str()) {
            match tasklist_line_pid(lines[i].as_str()) {
                Some(p) => out.push(p),
                None => {},
            }
        }
        i = i + 1;
    }
    assert(ls.take(lines@.len() as int) =~= ls);
    out
}

/// ASCII upper-casing of a character.
pub open spec fn ascii_upper_char(c: char) -> char {
    if 'a' <= c && c <= 'z' {
        ((c as u32) - 32) as char
    } else {
        c
    }
}

/// ASCII upper-casing of a text (`str::to_ascii_uppercase`).
pub open spec fn ascii_upper_seq(s: Seq<char>) -> Seq<char> {
    s.map_values(|c: char| ascii_upper_char(c))
}

fn ascii_uppercase(s: &str) -> (r: String)
    ensures
        r@ == ascii_upper_seq(s@),
{
    let v = crate::text::chars_of(s);
    let mut out: Vec<char> = Vec::new();
    let mut i: usize = 0;
    while i < v.len()
        invariant
            v@ == s@,
            i <= v.len(),
            out@ =~= ascii_upper_seq(v@.take(i as int)),
        decreases v.len() - i,
    {
        let c = v[i];
        let u = if 'a' <= c && c <= 'z' {
            (((c as u32) - 32) as u8) as char
        } else {
            c
        };
        assert(u == ascii_upper_char(c)) by {
            if 'a' <= c && c <= 'z' {
                vstd::utf8::char_u32_cast(c, c as u32);
            }
        }
        out.push(u);
        i = i + 1;
    }
    assert(v@.take(v.len() as int) =~= v@);
    crate::text::string_from_chars(&out)
}

/// Whether a process whose executable `wmic` reported lies under the install root: the
/// root (trimmed, ASCII upper-cased) is not empty and the report, upper-cased, contains it.
pub fn process_under_install_root(wmic_output: &str, install_root: &str) -> (r: bool)
    ensures
        r == (ascii_upper_seq(trim_seq(install_root@)).len() > 0 && contains_seq(
            ascii_upper_seq(wmic_output@),
            ascii_upper_seq(trim_seq(install_root@)),
        )),
{
    let t = trim(install_root);
    let root = ascii_uppercase(t.as_str());
    if root.as_str().unicode_len() == 0 {
        return false;
    }
    let report = ascii_uppercase(wmic_output);
    contains(report.as_str(), root.as_str())
}

} // verus!
