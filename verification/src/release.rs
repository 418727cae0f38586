//! Workspace release chores: checking a version number and rewriting the version where
//! the workspace records it.
use vstd::prelude::*;

use crate::text::{
    all_digits, find, first_occurrence, owned, split_chars, split_seq, strings_view, trim, trim_seq,
};

verus! {

/// The part of a version before its pre-release suffix (before the first `-`).
pub open spec fn version_core(value: Seq<char>) -> Seq<char> {
    split_seq(value, '-')[0]
}

/// A version looks like `x.y.z`: three non-empty runs of ASCII digits separated by dots,
/// optionally followed by `-` and anything.
pub open spec fn version_well_formed(value: Seq<char>) -> bool {
    let parts = split_seq(version_core(value), '.');
    parts.len() == 3 && forall|i: int| 0 <= i < 3 ==> (#[trigger] parts[i]).len() > 0 && all_digits(
        parts[i],
    )
}

/// Checks a version given on the command line (trimmed): an empty one is refused with
/// `version cannot be empty`, one that does not look like `x.y.z` with
/// `version must look like x.y.z`.
pub fn validate_version(version: &str) -> (r: Result<(), String>)
    ensures
        trim_seq(version@).len() == 0 ==> (r matches Err(e) && e@ == "version cannot be empty"@),
        trim_seq(version@).len() > 0 && version_well_formed(trim_seq(version@)) ==> r is Ok,
        trim_seq(version@).len() > 0 && !version_well_formed(trim_seq(version@)) ==> (r matches Err(e)
            && e@ == "version must look like x.y.z"@),
{
    let value = trim(version);
    let chars = crate::text::chars_of(value.as_str());
    if chars.len() == 0 {
        return Err(owned("version cannot be empty"));
    }
    let halves = split_chars(&chars, '-');
    proof {
        crate::text::lemma_split_nonempty(value@, '-');
    }
    let parts = split_chars(&halves[0], '.');
    assert(halves[0]@ == version_core(value@));
    let ghost ps = crate::text::pieces_view(parts@);
    if parts.len() != 3 {
        return Err(owned("version must look like x.y.z"));
    }
    let mut i: usize = 0;
    while i < 3
        invariant
            i <= 3,
            value@ == trim_seq(version@),
            value@.len() > 0,
            parts@.len() == 3,
            ps == crate::text::pieces_view(parts@),
            ps == split_seq(version_core(value@), '.'),
            forall|k: int| 0 <= k < i ==> (#[trigger] ps[k]).len() > 0 && all_digits(ps[k]),
        decreases 3 - i,
    {
        let part = &parts[i];
        assert(ps[i as int] == part@);
        if part.len() == 0 {
            return Err(owned("version must look like x.y.z"));
        }
        let mut j: usize = 0;
        while j < part.len()
            invariant
                j <= part@.len(),
                i < 3,
                value@ == trim_seq(version@),
                value@.len() > 0,
                ps == split_seq(version_core(value@), '.'),
                ps.len() == 3,
                ps[i as int] == part@,
                forall|m: int| 0 <= m < j ==> '0' <= #[trigger] part@[m] && part@[m] <= '9',
            decreases part@.len() - j,
        {
            let c = part[j];
            if !('0' <= c && c <= '9') {
                assert(!all_digits(part@));
                return Err(owned("version must look like x.y.z"));
            }
            j = j + 1;
        }
        i = i + 1;
    }
    Ok(())
}

/// The text with the first occurrence of `from` replaced by `to`, if `from` occurs.
pub open spec fn replaced_first(content: Seq<char>, from: Seq<char>, to: Seq<char>) -> Option<Seq<char>> {
    if exists|i: int| first_occurrence(content, from, i) {
        let i = choose|i: int| first_occurrence(content, from, i);
        Some(content.take(i) + to + content.skip(i + from.len()))
    } else {
        None
    }
}

/// Rewrites the first occurrence of `from` in a file's content (`str::replacen` once); a
/// content without `from` is refused, naming the text sought and the file.
pub fn replace_in_text(content: &str, from: &str, to: &str, file_name: &str) -> (r: Result<String, String>)
    ensures
        match replaced_first(content@, from@, to@) {
            Some(t) => (r matches Ok(s) && s@ == t),
            None => (r matches Err(e) && e@ == "expected to find `"@ + from@ + "` in "@ + file_name@
                + " while updating version"@),
        },
{
    match find(content, from) {
        Some(i) => {
            proof {
                let j = choose|j: int| first_occurrence(content@, from@, j);
                if j < i {
                    assert(!crate::text::occurs_at(content@, from@, j));
                }
                if i < j {
                    assert(!crate::text::occurs_at(content@, from@, i as int));
                }
            }
            let n = content.unicode_len();
            let m = from.unicode_len();
            let head = content.substring_char(0, i);
            let tail = content.substring_char(i + m, n);
            let mut s = owned(head);
            s.append(to);
            s.append(tail);
            assert(head@ =~= content@.take(i as int));
            assert(tail@ =~= content@.skip(i + m));
            Ok(s)
        },
        None => {
            assert(!exists|i: int| first_occurrence(content@, from@, i));
            let mut e = owned("expected to find `");
            e.append(from);
            e.append("` in ");
            e.append(file_name);
            e.append(" while updating version");
            Err(e)
        },
    }
}

/// A file of the workspace in which the version is rewritten, and how.
#[derive(Debug, Clone)]
pub struct FileReplacement {
    pub path: String,
    pub from: String,
    pub to: String,
}

/// The view of a replacement as path, old text and new text.
pub open spec fn replacement_view(r: FileReplacement) -> (Seq<char>, Seq<char>, Seq<char>) {
    (r.path@, r.from@, r.to@)
}

/// Where and how a version change from `current` to `next` is written: the `VERSION` file
/// itself, the workspace manifest, the desktop app's package files and configuration, the
/// installer definitions, the desktop mock status and the runtime test backend.
pub open spec fn version_replacements(current: Seq<char>, next: Seq<char>) -> Seq<
    (Seq<char>, Seq<char>, Seq<char>),
> {
    let json = |v: Seq<char>| "\"version\": \""@ + v + "\""@;
    seq![
        ("VERSION"@, current, next),
        ("Cargo.toml"@, "version = \""@ + current + "\""@, "version = \""@ + next + "\""@),
        ("apps/rtc-agent-desktop/package.json"@, json(current), json(next)),
        ("apps/rtc-agent-desktop/package-lock.json"@, json(current), json(next)),
        ("apps/rtc-agent-desktop/src-tauri/tauri.conf.json"@, json(current), json(next)),
        (
            "packaging/windows/wix/RemoteTerminalCloudAgent.wxs"@,
            "Version=\""@ + current + "\""@,
            "Version=\""@ + next + "\""@,
        ),
        (
            "packaging/windows/nsis/agent.nsi"@,
            "!define AGENT_VERSION \""@ + current + "\""@,
            "!define AGENT_VERSION \""@ + next + "\""@,
        ),
        ("apps/rtc-agent-desktop/public/mock/status.json"@, json(current), json(next)),
        (
            "crates/rtc-agent-runtime/tests/mock_backend.rs"@,
            "\"agentVersion\": \""@ + current + "\""@,
            "\"agentVersion\": \""@ + next + "\""@,
        ),
    ]
}

fn quoted(prefix: &str, value: &str) -> (r: String)
    ensures
        r@ == prefix@ + value@ + "\""@,
{
    let mut s = owned(prefix);
    s.append(value);
    s.append("\"");
    s
}

fn replacement(path: &str, from: String, to: String) -> (r: FileReplacement)
    ensures
        replacement_view(r) == (path@, from@, to@),
{
    FileReplacement { path: owned(path), from, to }
}

/// The rewrites of a version change (see `version_replacements`).
pub fn version_file_replacements(current: &str, next: &str) -> (r: Vec<FileReplacement>)
    ensures
        r@.map_values(|x: FileReplacement| replacement_view(x)) == version_replacements(current@, next@),
{
    let mut v: Vec<FileReplacement> = Vec::new();
    v.push(replacement("VERSION", owned(current), owned(next)));
    v.push(replacement("Cargo.toml", quoted("version = \"", current), quoted("version = \"", next)));
    v.push(
        replacement(
            "apps/rtc-agent-desktop/package.json",
            quoted("\"version\": \"", current),
            quoted("\"version\": \"", next),
        ),
    );
    v.push(
        replacement(
            "apps/rtc-agent-desktop/package-lock.json",
            quoted("\"version\": \"", current),
            quoted("\"version\": \"", next),
        ),
    );
    v.push(
        replacement(
            "apps/rtc-agent-desktop/src-tauri/tauri.conf.json",
            quoted("\"version\": \"", current),
            quoted("\"version\": \"", next),
        ),
    );
    v.push(
        replacement(
            "packaging/windows/wix/RemoteTerminalCloudAgent.wxs",
            quoted("Version=\"", current),
            quoted("Version=\"", next),
        ),
    );
    v.push(
        replacement(
            "packaging/windows/nsis/agent.nsi",
            quoted("!define AGENT_VERSION \"", current),
            quoted("!define AGENT_VERSION \"", next),
        ),
    );
    v.push(
        replacement(
            "apps/rtc-agent-desktop/public/mock/status.json",
            quoted("\"version\": \"", current),
            quoted("\"version\": \"", next),
        ),
    );
    v.push(
        replacement(
            "crates/rtc-agent-runtime/tests/mock_backend.rs",
            quoted("\"agentVersion\": \"", current),
            quoted("\"agentVersion\": \"", next),
        ),
    );
    assert(v@.map_values(|x: FileReplacement| replacement_view(x)) =~= version_replacements(
        current@,
        next@,
    ));
    v
}

} // verus!
