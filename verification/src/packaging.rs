//! Release packaging: how targets are named and normalised, the names of the artifacts,
//! the commands and notes written into staging directories, and the result of each
//! packaging command.
use vstd::prelude::*;

use crate::config::opt_view;
use crate::text::{
    contains, contains_seq, insert_sorted_unique, is_blank_seq, join_seq, join_strings, owned, str_eq,
    strictly_sorted, strings_view, trim, trim_seq,
};

verus! {

/// The WinSW release used when none is asked for.
pub const DEFAULT_WINSW_VERSION: &'static str = "v2.12.0";

/// The host's operating system as packaging names it when no known target was asked
/// for: a macOS host builds `darwin` artifacts; any other host keeps its own name.
pub open spec fn host_platform_of(host_os: Seq<char>) -> Seq<char> {
    if host_os == "macos"@ {
        "darwin"@
    } else {
        host_os
    }
}

/// The target platform as packaging names it: a requested `windows` is `win32`; `win32`,
/// `linux` and `darwin` are kept; anything else is replaced by the host's operating system
/// (see `host_platform_of`).
pub open spec fn target_platform_of(value: Seq<char>, host_os: Seq<char>) -> Seq<char> {
    if value == "windows"@ {
        "win32"@
    } else if value == "win32"@ || value == "linux"@ || value == "darwin"@ {
        value
    } else {
        host_platform_of(host_os)
    }
}

/// Normalises a requested target platform (see `target_platform_of`).
pub fn normalize_target_platform(value: &str, host_os: &str) -> (r: String)
    ensures
        r@ == target_platform_of(value@, host_os@),
{
    if str_eq(value, "windows") {
        owned("win32")
    } else if str_eq(value, "win32") || str_eq(value, "linux") || str_eq(value, "darwin") {
        owned(value)
    } else if str_eq(host_os, "macos") {
        owned("darwin")
    } else {
        owned(host_os)
    }
}

/// A machine architecture as packaging names it: `x86_64` and `amd64` are `x64`,
/// `aarch64` and `arm64` are `arm64`; other names are kept.
pub open spec fn host_arch_of(value: Seq<char>) -> Seq<char> {
    if value == "x86_64"@ || value == "amd64"@ {
        "x64"@
    } else if value == "aarch64"@ || value == "arm64"@ {
        "arm64"@
    } else {
        value
    }
}

/// Normalises a machine architecture name (see `host_arch_of`).
pub fn normalize_host_arch(value: &str) -> (r: String)
    ensures
        r@ == host_arch_of(value@),
{
    if str_eq(value, "x86_64") || str_eq(value, "amd64") {
        owned("x64")
    } else if str_eq(value, "aarch64") || str_eq(value, "arm64") {
        owned("arm64")
    } else {
        owned(value)
    }
}

/// The target architecture as packaging names it: `amd64` becomes `x64`; `x64` and
/// `arm64` are kept; other names are normalised as host architectures.
pub open spec fn target_arch_of(value: Seq<char>) -> Seq<char> {
    if value == "amd64"@ {
        "x64"@
    } else if value == "x64"@ || value == "arm64"@ {
        value
    } else {
        host_arch_of(value)
    }
}

/// Normalises a requested target architecture (see `target_arch_of`).
pub fn normalize_target_arch(value: &str) -> (r: String)
    ensures
        r@ == target_arch_of(value@),
{
    if str_eq(value, "amd64") {
        owned("x64")
    } else if str_eq(value, "x64") || str_eq(value, "arm64") {
        owned(value)
    } else {
        normalize_host_arch(value)
    }
}

/// A variable's value trimmed, or the fallback when it is unset or blank.
pub open spec fn value_or(value: Option<Seq<char>>, fallback: Seq<char>) -> Seq<char> {
    match value {
        Some(v) => if trim_seq(v).len() > 0 {
            trim_seq(v)
        } else {
            fallback
        },
        None => fallback,
    }
}

fn env_or(value: &Option<String>, fallback: &str) -> (r: String)
    ensures
        r@ == value_or(opt_view(*value), fallback@),
{
    match value {
        Some(v) => {
            let t = trim(v.as_str());
            if t.as_str().unicode_len() > 0 {
                t
            } else {
                owned(fallback)
            }
        },
        None => owned(fallback),
    }
}

/// The names a packaging run works with; the directories themselves lie under the project
/// root (`release/<bundle_dir_name>`, `release/artifacts/<platform_dir_name>`).
#[derive(Debug, Clone)]
pub struct PackagingNames {
    pub version: String,
    pub target_platform: String,
    pub target_arch: String,
    pub os_name: String,
    pub arch_name: String,
    pub bundle_dir_name: String,
    pub platform_dir_name: String,
    pub archive_base_name: String,
}

/// The names for a version and target: the platform and architecture normalised from
/// `RTC_TARGET_PLATFORM` and `RTC_TARGET_ARCH` (the host's when unset or blank); the
/// operating system name (`windows` for `win32`) and Rust architecture name (`x86_64` for
/// `x64`); the bundle directory `remote-terminal-cloud-agent-<version>`, the platform
/// directory `<platform>-<arch>`, and the archive base name
/// `remote-terminal-cloud-agent-<version>-<platform>-<arch>`.
pub open spec fn names_for(
    version: Seq<char>,
    env_platform: Option<Seq<char>>,
    env_arch: Option<Seq<char>>,
    host_os: Seq<char>,
    host_arch: Seq<char>,
) -> (Seq<char>, Seq<char>, Seq<char>, Seq<char>, Seq<char>, Seq<char>) {
    let platform = target_platform_of(value_or(env_platform, host_os), host_os);
    let arch = target_arch_of(value_or(env_arch, host_arch));
    (
        platform,
        arch,
        if platform == "win32"@ {
            "windows"@
        } else {
            platform
        },
        if arch == "x64"@ {
            "x86_64"@
        } else {
            arch
        },
        "remote-terminal-cloud-agent-"@ + version,
        platform + "-"@ + arch,
    )
}

/// Works out the names of a packaging run (see `names_for`).
pub fn packaging_names(
    version: &str,
    env_platform: &Option<String>,
    env_arch: &Option<String>,
    host_os: &str,
    host_arch: &str,
) -> (r: PackagingNames)
    ensures
        r.version@ == version@,
        (r.target_platform@, r.target_arch@, r.os_name@, r.arch_name@, r.bundle_dir_name@, r.platform_dir_name@)
            == names_for(version@, opt_view(*env_platform), opt_view(*env_arch), host_os@, host_arch@),
        r.archive_base_name@ == r.bundle_dir_name@ + "-"@ + r.platform_dir_name@,
{
    let requested_platform = env_or(env_platform, host_os);
    let target_platform = normalize_target_platform(requested_platform.as_str(), host_os);
    let requested_arch = env_or(env_arch, host_arch);
    let target_arch = normalize_target_arch(requested_arch.as_str());
    let os_name = if str_eq(target_platform.as_str(), "win32") {
        owned("windows")
    } else {
        owned(target_platform.as_str())
    };
    let arch_name = if str_eq(target_arch.as_str(), "x64") {
        owned("x86_64")
    } else {
        owned(target_arch.as_str())
    };
    let mut bundle_dir_name = owned("remote-terminal-cloud-agent-");
    bundle_dir_name.append(version);
    let mut platform_dir_name = owned(target_platform.as_str());
    platform_dir_name.append("-");
    platform_dir_name.append(target_arch.as_str());
    let mut archive_base_name = owned(bundle_dir_name.as_str());
    archive_base_name.append("-");
    archive_base_name.append(platform_dir_name.as_str());
    PackagingNames {
        version: owned(version),
        target_platform,
        target_arch,
        os_name,
        arch_name,
        bundle_dir_name,
        platform_dir_name,
        archive_base_name,
    }
}

/// The Rust target triple of a platform and architecture, for the six supported
/// combinations.
pub open spec fn target_triple(platform: Seq<char>, arch: Seq<char>) -> Option<Seq<char>> {
    if platform == "win32"@ && arch == "x64"@ {
        Some("x86_64-pc-windows-msvc"@)
    } else if platform == "win32"@ && arch == "arm64"@ {
        Some("aarch64-pc-windows-msvc"@)
    } else if platform == "linux"@ && arch == "x64"@ {
        Some("x86_64-unknown-linux-gnu"@)
    } else if platform == "linux"@ && arch == "arm64"@ {
        Some("aarch64-unknown-linux-gnu"@)
    } else if platform == "darwin"@ && arch == "x64"@ {
        Some("x86_64-apple-darwin"@)
    } else if platform == "darwin"@ && arch == "arm64"@ {
        Some("aarch64-apple-darwin"@)
    } else {
        None
    }
}

/// The Rust target triple names the requested machine: there is one exactly for the
/// platforms `win32`, `linux`, `darwin` and the architectures `x64`, `arm64`; it begins
/// with `x86_64-` for `x64` and `aarch64-` for `arm64`, and ends with `-pc-windows-msvc`
/// for `win32`, `-unknown-linux-gnu` for `linux` and `-apple-darwin` for `darwin`.
pub proof fn lemma_target_triple_names_target(platform: Seq<char>, arch: Seq<char>)
    ensures
        (target_triple(platform, arch) is Some) == ((platform == "win32"@ || platform == "linux"@
            || platform == "darwin"@) && (arch == "x64"@ || arch == "arm64"@)),
        target_triple(platform, arch) matches Some(t) ==> {
            &&& arch == "x64"@ ==> "x86_64-"@.is_prefix_of(t)
            &&& arch == "arm64"@ ==> "aarch64-"@.is_prefix_of(t)
            &&& platform == "win32"@ ==> "-pc-windows-msvc"@.is_suffix_of(t)
            &&& platform == "linux"@ ==> "-unknown-linux-gnu"@.is_suffix_of(t)
            &&& platform == "darwin"@ ==> "-apple-darwin"@.is_suffix_of(t)
        },
{
    reveal_strlit("x86_64-");
    reveal_strlit("aarch64-");
    reveal_strlit("-pc-windows-msvc");
    reveal_strlit("-unknown-linux-gnu");
    reveal_strlit("-apple-darwin");
    reveal_strlit("x86_64-pc-windows-msvc");
    reveal_strlit("aarch64-pc-windows-msvc");
    reveal_strlit("x86_64-unknown-linux-gnu");
    reveal_strlit("aarch64-unknown-linux-gnu");
    reveal_strlit("x86_64-apple-darwin");
    reveal_strlit("aarch64-apple-darwin");
    reveal_strlit("win32");
    reveal_strlit("linux");
    reveal_strlit("darwin");
    reveal_strlit("x64");
    reveal_strlit("arm64");
    assert("x64"@.len() != "arm64"@.len());
    assert("win32"@ != "linux"@ && "win32"@ != "darwin"@ && "linux"@ != "darwin"@) by {
        assert("win32"@[0] != "linux"@[0]);
        assert("win32"@[0] != "darwin"@[0]);
        assert("linux"@[0] != "darwin"@[0]);
    }
    assert("x86_64-"@.is_prefix_of("x86_64-pc-windows-msvc"@));
    assert("x86_64-"@.is_prefix_of("x86_64-unknown-linux-gnu"@));
    assert("x86_64-"@.is_prefix_of("x86_64-apple-darwin"@));
    assert("aarch64-"@.is_prefix_of("aarch64-pc-windows-msvc"@));
    assert("aarch64-"@.is_prefix_of("aarch64-unknown-linux-gnu"@));
    assert("aarch64-"@.is_prefix_of("aarch64-apple-darwin"@));
    assert("-pc-windows-msvc"@.is_suffix_of("x86_64-pc-windows-msvc"@));
    assert("-pc-windows-msvc"@.is_suffix_of("aarch64-pc-windows-msvc"@));
    assert("-unknown-linux-gnu"@.is_suffix_of("x86_64-unknown-linux-gnu"@));
    assert("-unknown-linux-gnu"@.is_suffix_of("aarch64-unknown-linux-gnu"@));
    assert("-apple-darwin"@.is_suffix_of("x86_64-apple-darwin"@));
    assert("-apple-darwin"@.is_suffix_of("aarch64-apple-darwin"@));
}

/// The Rust target triple to build for (see `target_triple`); other combinations are
/// refused, naming them.
pub fn rust_target_triple(target_platform: &str, target_arch: &str) -> (r: Result<String, String>)
    ensures
        match target_triple(target_platform@, target_arch@) {
            Some(t) => (r matches Ok(s) && s@ == t),
            None => (r matches Err(e) && e@ == "unsupported target combination for Rust packaging: "@
                + target_platform@ + "/"@ + target_arch@),
        },
{
    let p = target_platform;
    let a = target_arch;
    if str_eq(p, "win32") && str_eq(a, "x64") {
        Ok(owned("x86_64-pc-windows-msvc"))
    } else if str_eq(p, "win32") && str_eq(a, "arm64") {
        Ok(owned("aarch64-pc-windows-msvc"))
    } else if str_eq(p, "linux") && str_eq(a, "x64") {
        Ok(owned("x86_64-unknown-linux-gnu"))
    } else if str_eq(p, "linux") && str_eq(a, "arm64") {
        Ok(owned("aarch64-unknown-linux-gnu"))
    } else if str_eq(p, "darwin") && str_eq(a, "x64") {
        Ok(owned("x86_64-apple-darwin"))
    } else if str_eq(p, "darwin") && str_eq(a, "arm64") {
        Ok(owned("aarch64-apple-darwin"))
    } else {
        let mut e = owned("unsupported target combination for Rust packaging: ");
        e.append(p);
        e.append("/");
        e.append(a);
        Err(e)
    }
}

/// Whether a build needs an explicit `--target`: when the target operating system or
/// architecture differs from the host's.
pub fn needs_explicit_target(os_name: &str, target_arch: &str, host_os: &str, host_arch: &str) -> (r:
    bool)
    ensures
        r == (os_name@ != host_os@ || host_arch_of(host_arch@) != target_arch@),
{
    let normalized = normalize_host_arch(host_arch);
    !str_eq(os_name, host_os) || !str_eq(normalized.as_str(), target_arch)
}

/// The file name of a binary: `.exe` appended on Windows.
pub open spec fn binary_name(platform: Seq<char>, stem: Seq<char>) -> Seq<char> {
    if platform == "win32"@ {
        stem + ".exe"@
    } else {
        stem
    }
}

/// The file name of a binary for the target platform (see `binary_name`).
pub fn binary_file_name(target_platform: &str, stem: &str) -> (r: String)
    ensures
        r@ == binary_name(target_platform@, stem@),
{
    let mut s = owned(stem);
    if str_eq(target_platform, "win32") {
        s.append(".exe");
    }
    s
}

/// The archive of a platform artifact: a zip on Windows, a gzipped tar elsewhere.
pub fn archive_file_name(target_platform: &str, archive_base_name: &str) -> (r: String)
    ensures
        r@ == archive_base_name@ + if target_platform@ == "win32"@ {
            ".zip"@
        } else {
            ".tar.gz"@
        },
{
    let mut s = owned(archive_base_name);
    if str_eq(target_platform, "win32") {
        s.append(".zip");
    } else {
        s.append(".tar.gz");
    }
    s
}

/// The native installer of a platform artifact: a `.deb` on Linux, a `.pkg` on macOS,
/// none elsewhere.
pub fn native_installer_file_name(target_platform: &str, archive_base_name: &str) -> (r: Option<
    String,
>)
    ensures
        opt_view(r) == if target_platform@ == "linux"@ {
            Some(archive_base_name@ + ".deb"@)
        } else if target_platform@ == "darwin"@ {
            Some(archive_base_name@ + ".pkg"@)
        } else {
            None
        },
{
    if str_eq(target_platform, "linux") {
        let mut s = owned(archive_base_name);
        s.append(".deb");
        Some(s)
    } else if str_eq(target_platform, "darwin") {
        let mut s = owned(archive_base_name);
        s.append(".pkg");
        Some(s)
    } else {
        None
    }
}

/// How the agent is started from an unpacked artifact: `.\bin\rtc-agent.exe` on Windows,
/// `./bin/rtc-agent` elsewhere.
pub fn start_command(target_platform: &str) -> (r: String)
    ensures
        r@ == if target_platform@ == "win32"@ {
            ".\\bin\\"@ + binary_name(target_platform@, "rtc-agent"@)
        } else {
            "./bin/"@ + binary_name(target_platform@, "rtc-agent"@)
        },
{
    let name = binary_file_name(target_platform, "rtc-agent");
    let mut s = if str_eq(target_platform, "win32") {
        owned(".\\bin\\")
    } else {
        owned("./bin/")
    };
    s.append(name.as_str());
    s
}

/// The extension of the temporary file a binary is first copied to: the binary's own
/// extension followed by `.tmp`, or just `tmp`.
pub fn temp_extension(extension: Option<&str>) -> (r: String)
    ensures
        r@ == match extension {
            Some(e) => if e@.len() > 0 {
                e@ + ".tmp"@
            } else {
                "tmp"@
            },
            None => "tmp"@,
        },
{
    match extension {
        Some(e) => if e.unicode_len() > 0 {
            let mut s = owned(e);
            s.append(".tmp");
            s
        } else {
            owned("tmp")
        },
        None => owned("tmp"),
    }
}

/// Joins path segments with `/`, as written into the bundle manifests.
pub fn slash_join(parts: &Vec<String>) -> (r: String)
    ensures
        r@ == join_seq(strings_view(parts@), "/"@),
{
    join_strings(parts, "/")
}

/// How a value is written on a command line: quoted when it holds a space.
pub open spec fn rendered_arg(value: Seq<char>) -> Seq<char> {
    if contains_seq(value, " "@) {
        "\""@ + value + "\""@
    } else {
        value
    }
}

/// The words of `cargo xtask <command>` followed by each flag and its value, if any.
pub open spec fn command_line_words(command: Seq<char>, args: Seq<(Seq<char>, Option<Seq<char>>)>) -> Seq<
    Seq<char>,
>
    decreases args.len(),
{
    if args.len() == 0 {
        seq!["cargo"@, "xtask"@, command]
    } else {
        let rest = command_line_words(command, args.drop_last()).push(args.last().0);
        match args.last().1 {
            Some(v) => rest.push(rendered_arg(v)),
            None => rest,
        }
    }
}

/// The views of flags with optional values.
pub open spec fn flags_view(args: Seq<(String, Option<String>)>) -> Seq<(Seq<char>, Option<Seq<char>>)> {
    args.map_values(|a: (String, Option<String>)| (a.0@, opt_view(a.1)))
}

/// The `cargo xtask` command line that a staging directory suggests (see
/// `command_line_words`), words separated by single spaces.
pub fn xtask_command_line(command: &str, args: &Vec<(String, Option<String>)>) -> (r: String)
    ensures
        r@ == join_seq(command_line_words(command@, flags_view(args@)), " "@),
{
    let mut words: Vec<String> = Vec::new();
    words.push(owned("cargo"));
    words.push(owned("xtask"));
    words.push(owned(command));
    assert(strings_view(words@) =~= command_line_words(command@, flags_view(args@).take(0)));
    let mut i: usize = 0;
    while i < args.len()
        invariant
            i <= args@.len(),
            strings_view(words@) == command_line_words(command@, flags_view(args@).take(i as int)),
        decreases args@.len() - i,
    {
        let ghost prefix = flags_view(args@).take(i + 1);
        assert(prefix.drop_last() =~= flags_view(args@).take(i as int));
        assert(prefix.last() == (args@[i as int].0@, opt_view(args@[i as int].1)));
        let flag = owned(args[i].0.as_str());
        let ghost before = words@;
        words.push(flag);
        assert(strings_view(words@) =~= strings_view(before).push(args@[i as int].0@));
        match &args[i].1 {
            Some(v) => {
                let rendered = if contains(v.as_str(), " ") {
                    let mut q = owned("\"");
                    q.append(v.as_str());
                    q.append("\"");
                    q
                } else {
                    owned(v.as_str())
                };
                let ghost mid = words@;
                words.push(rendered);
                assert(strings_view(words@) =~= strings_view(mid).push(rendered@));
            },
            None => {},
        }
        i = i + 1;
    }
    assert(flags_view(args@).take(args@.len() as int) =~= flags_view(args@));
    join_strings(&words, " ")
}

fn lines_of(items: &[&str]) -> (r: Vec<String>)
    ensures
        strings_view(r@) == items@.map_values(|s: &str| s@),
{
    let mut v: Vec<String> = Vec::new();
    let mut i: usize = 0;
    while i < items.len()
        invariant
            i <= items@.len(),
            strings_view(v@) =~= items@.take(i as int).map_values(|s: &str| s@),
        decreases items@.len() - i,
    {
        let s = owned(items[i]);
        let ghost before = v@;
        v.push(s);
        assert(strings_view(v@) =~= strings_view(before).push(s@));
        assert(items@.take(i + 1) =~= items@.take(i as int).push(items@[i as int]));
        i = i + 1;
    }
    assert(items@.take(items@.len() as int) =~= items@);
    v
}

/// The two service wrapper files a Windows staging directory lists when the service is
/// included.
pub open spec fn service_payload_lines() -> Seq<Seq<char>> {
    seq![
        "- service\\RemoteTerminalCloudAgentService.exe"@,
        "- service\\RemoteTerminalCloudAgentService.xml"@,
    ]
}

/// The notes of an NSIS staging directory without the service wrapper files.
pub open spec fn nsis_base_lines(build_command: Seq<char>) -> Seq<Seq<char>> {
    seq![
        "Remote Terminal Cloud Agent - Windows NSIS build root"@,
        ""@,
        "This directory is ready to be used with cargo xtask."@,
        ""@,
        "Build command:"@,
        build_command,
        ""@,
        "Default mode:"@,
        "- Installs and launches rtc-agent-desktop as the primary background app"@,
        "- Service wrapper files are optional and excluded unless --include-service is used"@,
        ""@,
        "Key paths:"@,
        "- bin\\rtc-agent.exe"@,
        "- bin\\rtc-agent-manager.exe"@,
        "- bin\\rtc-agent-desktop.exe"@,
        "- bin\\rtc-agent-installer.exe"@,
        "- packaging\\windows\\nsis\\agent.nsi"@,
        "- artifacts\\windows\\out"@,
    ]
}

/// The notes of an NSIS staging directory: what it is, the build command, the default
/// mode and the key paths (with the service wrapper files when the service is included).
pub open spec fn nsis_readme_lines(build_command: Seq<char>, include_service: bool) -> Seq<Seq<char>> {
    nsis_base_lines(build_command) + if include_service {
        service_payload_lines()
    } else {
        Seq::empty()
    }
}

/// The notes of an MSI staging directory without the service wrapper files.
pub open spec fn msi_base_lines(build_command: Seq<char>) -> Seq<Seq<char>> {
    seq![
        "Remote Terminal Cloud Agent - Windows MSI build root"@,
        ""@,
        "This directory is ready to be used as AgentBuildRoot for WiX."@,
        ""@,
        "Build command:"@,
        build_command,
        ""@,
        "Default mode:"@,
        "- Installs and launches rtc-agent-desktop as the primary background app"@,
        "- Service wrapper files are optional and excluded unless --include-service is used"@,
        ""@,
        "Key paths:"@,
        "- bin\\rtc-agent.exe"@,
        "- bin\\rtc-agent-manager.exe"@,
        "- bin\\rtc-agent-desktop.exe"@,
        "- bin\\rtc-agent-installer.exe"@,
        "- packaging\\windows\\agent.config.json"@,
        "- packaging\\windows\\wix\\RemoteTerminalCloudAgent.wxs"@,
    ]
}

/// The notes of an MSI staging directory (see `nsis_readme_lines` for their layout).
pub open spec fn msi_readme_lines(build_command: Seq<char>, include_service: bool) -> Seq<Seq<char>> {
    msi_base_lines(build_command) + if include_service {
        service_payload_lines()
    } else {
        Seq::empty()
    }
}

fn with_service_lines(lines: &mut Vec<String>, include_service: bool)
    ensures
        strings_view(final(lines)@) == strings_view(old(lines)@) + if include_service {
            service_payload_lines()
        } else {
            Seq::empty()
        },
{
    let ghost before = strings_view(lines@);
    if include_service {
        lines.push(owned("- service\\RemoteTerminalCloudAgentService.exe"));
        lines.push(owned("- service\\RemoteTerminalCloudAgentService.xml"));
        assert(strings_view(lines@) =~= before + service_payload_lines());
    } else {
        assert(strings_view(lines@) =~= before + Seq::<Seq<char>>::empty());
    }
}

/// The `README.txt` of an NSIS staging directory: `nsis_readme_lines` joined by newlines.
pub fn nsis_stage_readme(build_command: &str, include_service: bool) -> (r: String)
    ensures
        r@ == join_seq(nsis_readme_lines(build_command@, include_service), "\n"@),
{
    let mut lines = lines_of(
        &[
            "Remote Terminal Cloud Agent - Windows NSIS build root",
            "",
            "This directory is ready to be used with cargo xtask.",
            "",
            "Build command:",
            build_command,
            "",
            "Default mode:",
            "- Installs and launches rtc-agent-desktop as the primary background app",
            "- Service wrapper files are optional and excluded unless --include-service is used",
            "",
            "Key paths:",
            "- bin\\rtc-agent.exe",
            "- bin\\rtc-agent-manager.exe",
            "- bin\\rtc-agent-desktop.exe",
            "- bin\\rtc-agent-installer.exe",
            "- packaging\\windows\\nsis\\agent.nsi",
            "- artifacts\\windows\\out",
        ],
    );
    assert(strings_view(lines@) =~= nsis_base_lines(build_command@));
    with_service_lines(&mut lines, include_service);
    join_strings(&lines, "\n")
}

/// The `README.txt` of an MSI staging directory: `msi_readme_lines` joined by newlines.
pub fn msi_stage_readme(build_command: &str, include_service: bool) -> (r: String)
    ensures
        r@ == join_seq(msi_readme_lines(build_command@, include_service), "\n"@),
{
    let mut lines = lines_of(
        &[
            "Remote Terminal Cloud Agent - Windows MSI build root",
            "",
            "This directory is ready to be used as AgentBuildRoot for WiX.",
            "",
            "Build command:",
            build_command,
            "",
            "Default mode:",
            "- Installs and launches rtc-agent-desktop as the primary background app",
            "- Service wrapper files are optional and excluded unless --include-service is used",
            "",
            "Key paths:",
            "- bin\\rtc-agent.exe",
            "- bin\\rtc-agent-manager.exe",
            "- bin\\rtc-agent-desktop.exe",
            "- bin\\rtc-agent-installer.exe",
            "- packaging\\windows\\agent.config.json",
            "- packaging\\windows\\wix\\RemoteTerminalCloudAgent.wxs",
        ],
    );
    assert(strings_view(lines@) =~= msi_base_lines(build_command@));
    with_service_lines(&mut lines, include_service);
    join_strings(&lines, "\n")
}

/// The `README.txt` of the service folder of an MSI staging directory.
pub fn msi_service_readme() -> (r: String)
    ensures
        r@ == join_seq(
            seq![
                "This folder contains the optional service wrapper payload for MSI packaging."@,
                "Bundled files:"@,
                "- RemoteTerminalCloudAgentService.exe"@,
                "- RemoteTerminalCloudAgentService.xml"@,
            ],
            "\n"@,
        ),
{
    let lines = lines_of(
        &[
            "This folder contains the optional service wrapper payload for MSI packaging.",
            "Bundled files:",
            "- RemoteTerminalCloudAgentService.exe",
            "- RemoteTerminalCloudAgentService.xml",
        ],
    );
    assert(strings_view(lines@) =~= seq![
        "This folder contains the optional service wrapper payload for MSI packaging."@,
        "Bundled files:"@,
        "- RemoteTerminalCloudAgentService.exe"@,
        "- RemoteTerminalCloudAgentService.xml"@,
    ]);
    join_strings(&lines, "\n")
}

/// The `README.txt` of a platform artifact: what it is, its version, platform,
/// architecture and server, and what it contains.
pub fn artifact_readme(version: &str, target_platform: &str, target_arch: &str, server_base_url: &str) -> (r:
    String)
    ensures
        r@ == join_seq(
            seq![
                "Remote Terminal Cloud Agent platform artifact"@,
                ""@,
                "Version: "@ + version@,
                "Platform: "@ + target_platform@,
                "Architecture: "@ + target_arch@,
                "Server base URL: "@ + server_base_url@,
                ""@,
                "This artifact contains:"@,
                "- bin/ Rust agent, installer, desktop, and compatibility manager binaries"@,
                "- packaging/ platform service and installer templates"@,
                "- docs/ deployment and packaging notes"@,
            ],
            "\n"@,
        ),
{
    let mut v = owned("Version: ");
    v.append(version);
    let mut p = owned("Platform: ");
    p.append(target_platform);
    let mut a = owned("Architecture: ");
    a.append(target_arch);
    let mut u = owned("Server base URL: ");
    u.append(server_base_url);
    let lines = lines_of(
        &[
            "Remote Terminal Cloud Agent platform artifact",
            "",
            v.as_str(),
            p.as_str(),
            a.as_str(),
            u.as_str(),
            "",
            "This artifact contains:",
            "- bin/ Rust agent, installer, desktop, and compatibility manager binaries",
            "- packaging/ platform service and installer templates",
            "- docs/ deployment and packaging notes",
        ],
    );
    assert(strings_view(lines@) =~= seq![
        "Remote Terminal Cloud Agent platform artifact"@,
        ""@,
        "Version: "@ + version@,
        "Platform: "@ + target_platform@,
        "Architecture: "@ + target_arch@,
        "Server base URL: "@ + server_base_url@,
        ""@,
        "This artifact contains:"@,
        "- bin/ Rust agent, installer, desktop, and compatibility manager binaries"@,
        "- packaging/ platform service and installer templates"@,
        "- docs/ deployment and packaging notes"@,
    ]);
    join_strings(&lines, "\n")
}

/// The version in a `VERSION` file: its content trimmed; an empty one is refused.
pub fn read_version(contents: &str) -> (r: Result<String, String>)
    ensures
        trim_seq(contents@).len() > 0 ==> (r matches Ok(v) && v@ == trim_seq(contents@)),
        trim_seq(contents@).len() == 0 ==> (r matches Err(e) && e@ == "VERSION is empty"@),
{
    let v = trim(contents);
    if v.as_str().unicode_len() == 0 {
        Err(owned("VERSION is empty"))
    } else {
        Ok(v)
    }
}

/// A text's trimmed content when it is not blank.
pub open spec fn non_blank_trimmed(value: Option<Seq<char>>) -> Option<Seq<char>> {
    match value {
        Some(v) => if trim_seq(v).len() > 0 {
            Some(trim_seq(v))
        } else {
            None
        },
        None => None,
    }
}

/// The version an NSIS installer is built with: the one asked for, else the build root's
/// `VERSION` file, else the workspace version (the first two trimmed, blank ones skipped).
pub fn installer_version(requested: &Option<String>, build_root_version: &Option<String>, workspace_version: &str) -> (r:
    String)
    ensures
        r@ == match non_blank_trimmed(opt_view(*requested)) {
            Some(v) => v,
            None => match non_blank_trimmed(opt_view(*build_root_version)) {
                Some(v) => v,
                None => workspace_version@,
            },
        },
{
    if let Some(v) = requested {
        let t = trim(v.as_str());
        if t.as_str().unicode_len() > 0 {
            return t;
        }
    }
    if let Some(v) = build_root_version {
        let t = trim(v.as_str());
        if t.as_str().unicode_len() > 0 {
            return t;
        }
    }
    owned(workspace_version)
}

/// Where the WinSW executable of a release is downloaded from; a blank release means
/// `DEFAULT_WINSW_VERSION`.
pub fn winsw_download_url(version: &str) -> (r: String)
    ensures
        r@ == "https://github.com/winsw/winsw/releases/download/"@ + (if trim_seq(version@).len()
            == 0 {
            DEFAULT_WINSW_VERSION@
        } else {
            version@
        }) + "/WinSW-x64.exe"@,
{
    let release = if crate::text::is_blank(version) {
        DEFAULT_WINSW_VERSION
    } else {
        version
    };
    let mut s = owned("https://github.com/winsw/winsw/releases/download/");
    s.append(release);
    s.append("/WinSW-x64.exe");
    s
}

/// The outcome of a packaging command: its name, success, a message, and details keyed by
/// name (ordered by key, each key once).
#[derive(Debug, Clone)]
pub struct PackagingActionResult {
    pub command: String,
    pub ok: bool,
    pub message: String,
    pub details: Vec<(String, String)>,
}

/// The keys of details, in order.
pub open spec fn detail_keys(d: Seq<(String, String)>) -> Seq<Seq<char>> {
    d.map_values(|p: (String, String)| p.0@)
}

/// Details hold each key once, in increasing order.
pub open spec fn details_well_formed(d: Seq<(String, String)>) -> bool {
    strictly_sorted(detail_keys(d))
}

/// Sets a detail as a sorted map does: an existing key takes the new value, a new key is
/// added in its place in the order.
pub fn insert_detail(details: &mut Vec<(String, String)>, key: String, value: String)
    requires
        details_well_formed(old(details)@),
    ensures
        details_well_formed(final(details)@),
        forall|i: int|
            0 <= i < final(details)@.len() && (#[trigger] final(details)@[i]).0@ == key@
                ==> final(details)@[i].1@ == value@,
        exists|i: int| 0 <= i < final(details)@.len() && (#[trigger] final(details)@[i]).0@ == key@,
        forall|j: int|
            0 <= j < old(details)@.len() && (#[trigger] old(details)@[j]).0@ != key@ ==> exists|i: int|
                0 <= i < final(details)@.len() && #[trigger] final(details)@[i] == old(details)@[j],
        forall|i: int|
            0 <= i < final(details)@.len() && (#[trigger] final(details)@[i]).0@ != key@ ==> exists|j: int|
                0 <= j < old(details)@.len() && #[trigger] old(details)@[j] == final(details)@[i],
{
    let ghost d = details@;
    let ghost s = detail_keys(d);
    let kc = crate::text::chars_of(key.as_str());
    let mut j: usize = 0;
    while j < details.len() && crate::text::chars_less(&crate::text::chars_of(details[j].0.as_str()), &kc)
        invariant
            j <= details@.len(),
            d == details@,
            s == detail_keys(d),
            kc@ == key@,
            forall|i: int| 0 <= i < j ==> crate::text::seq_less(#[trigger] s[i], key@),
        decreases details@.len() - j,
    {
        j = j + 1;
    }
    if j < details.len() && str_eq(details[j].0.as_str(), key.as_str()) {
        let ghost kv = key@;
        let old_key = owned(details[j].0.as_str());
        details.set(j, (old_key, value));
        proof {
            assert(detail_keys(details@) =~= s);
            assert forall|i: int|
                0 <= i < details@.len() && (#[trigger] details@[i]).0@ != kv implies exists|k: int|
                    0 <= k < d.len() && #[trigger] d[k] == details@[i] by {
                assert(i != j);
                assert(d[i] == details@[i]);
            }
            assert forall|k: int|
                0 <= k < d.len() && (#[trigger] d[k]).0@ != kv implies exists|i: int|
                    0 <= i < details@.len() && #[trigger] details@[i] == d[k] by {
                assert(k != j);
                assert(details@[k] == d[k]);
            }
            assert forall|i: int|
                0 <= i < details@.len() && (#[trigger] details@[i]).0@ == kv implies details@[i].1@
                    == value@ by {
                if i != j {
                    assert(s[i] == kv);
                    assert(s[j as int] == kv);
                    if i < j {
                        assert(crate::text::seq_less(s[i], s[j as int]));
                    } else {
                        assert(crate::text::seq_less(s[j as int], s[i]));
                    }
                    crate::text::lemma_seq_less_irreflexive(kv);
                }
            }
            assert(details@[j as int].0@ == kv);
        }
        return;
    }
    proof {
        if j < s.len() {
            assert(!crate::text::seq_less(s[j as int], key@));
            assert(s[j as int] != key@);
            crate::text::lemma_seq_less_total(s[j as int], key@);
            assert forall|k: int| j <= k < s.len() implies crate::text::seq_less(key@, #[trigger] s[k]) by {
                if k > j {
                    crate::text::lemma_seq_less_transitive(key@, s[j as int], s[k]);
                }
            }
        }
    }
    let ghost kv = key@;
    let ghost vv = value@;
    let pair = (key, value);
    let ghost pv = pair;
    details.insert(j, pair);
    proof {
        let t = detail_keys(details@);
        assert(details@ =~= d.take(j as int).push(pv) + d.skip(j as int));
        assert(t =~= s.take(j as int).push(kv) + s.skip(j as int));
        assert forall|a: int, b: int| 0 <= a < b < t.len() implies crate::text::seq_less(
            #[trigger] t[a],
            #[trigger] t[b],
        ) by {
            if b < j {
                assert(t[a] == s[a] && t[b] == s[b]);
            } else if b == j {
                assert(t[a] == s[a]);
            } else if a == j {
                assert(t[b] == s[b - 1]);
            } else if a < j {
                assert(t[a] == s[a] && t[b] == s[b - 1]);
                crate::text::lemma_seq_less_transitive(s[a], kv, s[b - 1]);
            } else {
                assert(t[a] == s[a - 1] && t[b] == s[b - 1]);
            }
        }
        assert forall|i: int|
            0 <= i < details@.len() && (#[trigger] details@[i]).0@ == kv implies details@[i].1@ == vv by {
            if i < j {
                assert(s[i] == kv);
                crate::text::lemma_seq_less_irreflexive(kv);
            } else if i > j {
                assert(s[i - 1] == kv);
                crate::text::lemma_seq_less_irreflexive(kv);
            }
        }
        assert(details@[j as int].0@ == kv);
        assert forall|k: int|
            0 <= k < d.len() && (#[trigger] d[k]).0@ != kv implies exists|i: int|
                0 <= i < details@.len() && #[trigger] details@[i] == d[k] by {
            if k < j {
                assert(details@[k] == d[k]);
            } else {
                assert(details@[k + 1] == d[k]);
            }
        }
        assert forall|i: int|
            0 <= i < details@.len() && (#[trigger] details@[i]).0@ != kv implies exists|k: int|
                0 <= k < d.len() && #[trigger] d[k] == details@[i] by {
            if i < j {
                assert(d[i] == details@[i]);
            } else {
                assert(i != j);
                assert(d[i - 1] == details@[i]);
            }
        }
    }
}

/// A successful packaging command with its message and details.
pub fn success(command: &str, message: &str, details: Vec<(String, String)>) -> (r: PackagingActionResult)
    ensures
        r.command@ == command@,
        r.ok,
        r.message@ == message@,
        r.details@ == details@,
{
    PackagingActionResult { command: owned(command), ok: true, message: owned(message), details }
}

/// Paths without repetitions, in increasing order of their text.
pub fn dedupe_paths(paths: Vec<String>) -> (r: Vec<String>)
    ensures
        strictly_sorted(strings_view(r@)),
        strings_view(r@).to_set() == strings_view(paths@).to_set(),
{
    let mut out: Vec<String> = Vec::new();
    let mut i: usize = 0;
    assert(strings_view(out@).to_set() =~= strings_view(paths@).take(0).to_set());
    while i < paths.len()
        invariant
            i <= paths@.len(),
            strictly_sorted(strings_view(out@)),
            strings_view(out@).to_set() == strings_view(paths@).take(i as int).to_set(),
        decreases paths@.len() - i,
    {
        let p = owned(paths[i].as_str());
        let ghost pv = p@;
        insert_sorted_unique(&mut out, p);
        assert(strings_view(paths@).take(i + 1) =~= strings_view(paths@).take(i as int).push(pv));
        proof {
            strings_view(paths@).take(i as int).lemma_push_to_set_commute(pv);
        }
        i = i + 1;
    }
    assert(strings_view(paths@).take(paths@.len() as int) =~= strings_view(paths@));
    out
}

/// White space turned into plain spaces.
pub open spec fn spaced(s: Seq<char>) -> Seq<char> {
    s.map_values(
        |c: char|
            if crate::text::is_white_space(c) {
                ' '
            } else {
                c
            },
    )
}

/// The words of a text (`str::split_whitespace`).
pub open spec fn words_of(s: Seq<char>) -> Seq<Seq<char>> {
    crate::text::non_empty_pieces(crate::text::split_seq(spaced(s), ' '))
}

/// The first word that starts with an ASCII digit.
pub open spec fn first_numeric_word(words: Seq<Seq<char>>) -> Option<Seq<char>>
    decreases words.len(),
{
    if words.len() == 0 {
        None
    } else if words[0].len() > 0 && '0' <= words[0][0] && words[0][0] <= '9' {
        Some(words[0])
    } else {
        first_numeric_word(words.drop_first())
    }
}

/// The major version of a version string that starts with a digit: the part before the
/// first `.`, when it is a number that fits in an `i32`.
pub open spec fn major_of(version: Seq<char>) -> Option<i32> {
    match crate::text::parsed_u64(crate::text::split_seq(version, '.')[0]) {
        Some(v) => if v <= i32::MAX {
            Some(v as i32)
        } else {
            None
        },
        None => None,
    }
}

/// Reads what `wix --version` printed: the version is the first word that starts with a
/// digit, and the major version is read from it (see `major_of`).
pub fn wix_version_from_output(output: &str) -> (r: (Option<String>, Option<i32>))
    ensures
        opt_view(r.0) == first_numeric_word(words_of(trim_seq(output@))),
        r.1 == match first_numeric_word(words_of(trim_seq(output@))) {
            Some(v) => major_of(v),
            None => None,
        },
{
    let text = trim(output);
    let cs = crate::text::chars_of(text.as_str());
    let mut mapped: Vec<char> = Vec::new();
    let mut i: usize = 0;
    while i < cs.len()
        invariant
            i <= cs@.len(),
            mapped@ =~= spaced(cs@.take(i as int)),
        decreases cs@.len() - i,
    {
        let c = cs[i];
        if crate::text::is_whitespace_char(c) {
            mapped.push(' ');
        } else {
            mapped.push(c);
        }
        i = i + 1;
    }
    assert(cs@.take(cs@.len() as int) =~= cs@);
    let pieces = crate::text::split_chars(&mapped, ' ');
    let words = crate::text::keep_non_empty(&pieces);
    let ghost ws = crate::text::pieces_view(words@);
    assert(ws == words_of(trim_seq(output@)));
    let mut k: usize = 0;
    assert(ws.skip(0) =~= ws);
    while k < words.len()
        invariant
            k <= words@.len(),
            ws == crate::text::pieces_view(words@),
            ws == words_of(trim_seq(output@)),
            first_numeric_word(ws) == first_numeric_word(ws.skip(k as int)),
        decreases words@.len() - k,
    {
        assert(ws.skip(k as int).drop_first() =~= ws.skip(k + 1));
        assert(ws.skip(k as int)[0] == words@[k as int]@);
        if words[k].len() > 0 && '0' <= words[k][0] && words[k][0] <= '9' {
            assert(ws.skip(k as int)[0] =~= words@[k as int]@);
            assert(first_numeric_word(ws.skip(k as int)) == Some(words@[k as int]@));
            let version = crate::text::string_from_chars(&words[k]);
            let parts = crate::text::split_chars(&words[k], '.');
            proof {
                crate::text::lemma_split_nonempty(words@[k as int]@, '.');
            }
            let head = crate::text::string_from_chars(&parts[0]);
            assert(head@ == crate::text::split_seq(words@[k as int]@, '.')[0]);
            let major = match crate::text::parse_u64(head.as_str()) {
                Some(v) => if v <= 2147483647 {
                    Some(v as i32)
                } else {
                    None
                },
                None => None,
            };
            return (Some(version), major);
        }
        k = k + 1;
    }
    (None, None)
}

/// The name of the WiX UI extension to add, pinned to the WiX version when it is known.
pub fn wix_extension_name(wix_version: &Option<String>) -> (r: String)
    ensures
        r@ == "WixToolset.UI.wixext"@ + match wix_version {
            Some(v) => "/"@ + v@,
            None => Seq::<char>::empty(),
        },
{
    let mut s = owned("WixToolset.UI.wixext");
    if let Some(v) = wix_version {
        s.append("/");
        s.append(v.as_str());
    }
    s
}

/// The arguments of `wix build` for a staging directory: the EULA is accepted on request
/// when WiX is version 7 or later, the UI extension is loaded, `AgentBuildRoot` names the
/// staging directory, and the installer definition is built into the given MSI.
pub fn wix_build_args(accept_eula: bool, wix_major: Option<i32>, build_root: &str, wxs_path: &str, msi_path: &str) -> (r:
    Vec<String>)
    ensures
        strings_view(r@) == seq!["build"@] + (if accept_eula && match wix_major {
            Some(m) => m >= 7,
            None => false,
        } {
            seq!["--acceptEula"@, "yes"@]
        } else {
            Seq::empty()
        }) + seq![
            "-ext"@,
            "WixToolset.UI.wixext"@,
            "-d"@,
            "AgentBuildRoot="@ + build_root@,
            wxs_path@,
            "-out"@,
            msi_path@,
        ],
{
    let mut v: Vec<String> = Vec::new();
    v.push(owned("build"));
    let major: i32 = match wix_major {
        Some(m) => m,
        None => 0,
    };
    let ghost head = strings_view(v@);
    if accept_eula && major >= 7 {
        v.push(owned("--acceptEula"));
        v.push(owned("yes"));
    }
    let ghost mid = strings_view(v@);
    let mut root_def = owned("AgentBuildRoot=");
    root_def.append(build_root);
    v.push(owned("-ext"));
    v.push(owned("WixToolset.UI.wixext"));
    v.push(owned("-d"));
    v.push(root_def);
    v.push(owned(wxs_path));
    v.push(owned("-out"));
    v.push(owned(msi_path));
    assert(strings_view(v@) =~= mid + seq![
        "-ext"@,
        "WixToolset.UI.wixext"@,
        "-d"@,
        "AgentBuildRoot="@ + build_root@,
        wxs_path@,
        "-out"@,
        msi_path@,
    ]);
    v
}

/// The environment variables that tell where NSIS may be installed.
#[derive(Debug, Clone, Default)]
pub struct NsisSearchEnv {
    pub program_files: Option<String>,
    pub program_files_x86: Option<String>,
    pub local_app_data: Option<String>,
    pub chocolatey_install: Option<String>,
    pub user_profile: Option<String>,
    pub scoop: Option<String>,
    pub nsis_home: Option<String>,
    pub nsis_root: Option<String>,
}

/// Scoop's root: `SCOOP`, else `scoop` in the user's profile.
pub open spec fn scoop_root_of(scoop: Option<Seq<char>>, user_profile: Option<Seq<char>>) -> Option<
    Seq<char>,
> {
    match scoop {
        Some(s) => Some(s),
        None => match user_profile {
            Some(u) => Some(u + "\\scoop"@),
            None => None,
        },
    }
}

/// A candidate location: the directory a variable names (trimmed) followed by path parts;
/// none when the variable is missing or blank.
pub open spec fn candidate_under(base: Option<Seq<char>>, parts: Seq<Seq<char>>) -> Seq<
    (Seq<char>, Seq<Seq<char>>),
> {
    match base {
        Some(b) => if is_blank_seq(b) {
            Seq::empty()
        } else {
            seq![(trim_seq(b), parts)]
        },
        None => Seq::empty(),
    }
}

/// The fixed places where `makensis.exe` is looked for, in order: the standard install
/// directories under both program-files roots, the per-user installs, Chocolatey, Scoop,
/// then `NSIS_HOME` and `NSIS_ROOT`.
pub open spec fn nsis_fixed_candidates(env: NsisSearchEnv) -> Seq<(Seq<char>, Seq<Seq<char>>)> {
    let pf = opt_view(env.program_files);
    let pf86 = opt_view(env.program_files_x86);
    let local = opt_view(env.local_app_data);
    let choco = opt_view(env.chocolatey_install);
    let scoop = scoop_root_of(opt_view(env.scoop), opt_view(env.user_profile));
    candidate_under(pf86, seq!["NSIS"@, "makensis.exe"@]) + candidate_under(
        pf,
        seq!["NSIS"@, "makensis.exe"@],
    ) + candidate_under(pf86, seq!["Nullsoft Scriptable Install System"@, "makensis.exe"@])
        + candidate_under(pf, seq!["Nullsoft Scriptable Install System"@, "makensis.exe"@])
        + candidate_under(local, seq!["Programs"@, "NSIS"@, "makensis.exe"@]) + candidate_under(
        local,
        seq!["NSIS"@, "makensis.exe"@],
    ) + candidate_under(choco, seq!["bin"@, "makensis.exe"@]) + candidate_under(
        choco,
        seq!["lib"@, "nsis"@, "tools"@, "makensis.exe"@],
    ) + candidate_under(choco, seq!["lib"@, "nsis.portable"@, "tools"@, "makensis.exe"@])
        + candidate_under(scoop, seq!["shims"@, "makensis.exe"@]) + candidate_under(
        scoop,
        seq!["apps"@, "nsis"@, "current"@, "makensis.exe"@],
    ) + candidate_under(opt_view(env.nsis_home), seq!["makensis.exe"@]) + candidate_under(
        opt_view(env.nsis_root),
        seq!["makensis.exe"@],
    )
}

/// A search pattern under the directory a variable names (as given); none when it is
/// missing.
pub open spec fn pattern_under(base: Option<Seq<char>>, suffix: Seq<char>) -> Seq<Seq<char>> {
    match base {
        Some(b) => seq![b + suffix],
        None => Seq::empty(),
    }
}

/// The wildcard patterns under which versioned NSIS installs are searched: WinGet
/// packages, program files, Chocolatey and Scoop.
pub open spec fn nsis_glob_patterns(env: NsisSearchEnv) -> Seq<Seq<char>> {
    let local = opt_view(env.local_app_data);
    let choco = opt_view(env.chocolatey_install);
    let scoop = scoop_root_of(opt_view(env.scoop), opt_view(env.user_profile));
    pattern_under(local, "\\Microsoft\\WinGet\\Packages\\*NSIS*\\makensis.exe"@) + pattern_under(
        local,
        "\\Microsoft\\WinGet\\Packages\\*NSIS*\\*\\makensis.exe"@,
    ) + pattern_under(local, "\\Microsoft\\WinGet\\Packages\\*NSIS*\\*\\*\\makensis.exe"@)
        + pattern_under(local, "\\Microsoft\\WinGet\\Packages\\*Nullsoft*\\makensis.exe"@)
        + pattern_under(local, "\\Microsoft\\WinGet\\Packages\\*Nullsoft*\\*\\makensis.exe"@)
        + pattern_under(local, "\\Microsoft\\WinGet\\Packages\\*Nullsoft*\\*\\*\\makensis.exe"@)
        + pattern_under(opt_view(env.program_files_x86), "\\*NSIS*\\makensis.exe"@) + pattern_under(
        opt_view(env.program_files),
        "\\*NSIS*\\makensis.exe"@,
    ) + pattern_under(choco, "\\lib\\nsis*\\tools\\makensis.exe"@) + pattern_under(
        choco,
        "\\lib\\nsis*\\tools\\*\\makensis.exe"@,
    ) + pattern_under(scoop, "\\apps\\nsis\\*\\makensis.exe"@)
}

/// The view of candidate locations.
pub open spec fn locations_view(v: Seq<(String, Vec<String>)>) -> Seq<(Seq<char>, Seq<Seq<char>>)> {
    v.map_values(|c: (String, Vec<String>)| (c.0@, strings_view(c.1@)))
}

fn scoop_root(env: &NsisSearchEnv) -> (r: Option<String>)
    ensures
        opt_view(r) == scoop_root_of(opt_view(env.scoop), opt_view(env.user_profile)),
{
    match &env.scoop {
        Some(s) => Some(owned(s.as_str())),
        None => match &env.user_profile {
            Some(u) => {
                let mut r = owned(u.as_str());
                r.append("\\scoop");
                Some(r)
            },
            None => None,
        },
    }
}

fn add_candidate(out: &mut Vec<(String, Vec<String>)>, base: &Option<String>, parts: &[&str])
    ensures
        locations_view(final(out)@) == locations_view(old(out)@) + candidate_under(
            opt_view(*base),
            parts@.map_values(|s: &str| s@),
        ),
{
    let ghost before = out@;
    match base {
        Some(b) => {
            if !crate::text::is_blank(b.as_str()) {
                let ps = parts_of(parts);
                let entry = (trim(b.as_str()), ps);
                out.push(entry);
                assert(locations_view(out@) =~= locations_view(before).push(
                    (trim_seq(b@), parts@.map_values(|s: &str| s@)),
                ));
            } else {
                assert(locations_view(out@) =~= locations_view(before) + Seq::<
                    (Seq<char>, Seq<Seq<char>>),
                >::empty());
            }
        },
        None => {
            assert(locations_view(out@) =~= locations_view(before) + Seq::<
                (Seq<char>, Seq<Seq<char>>),
            >::empty());
        },
    }
}

/// The fixed places where `makensis.exe` is looked for (see `nsis_fixed_candidates`), each
/// as a directory and the path parts below it.
pub fn nsis_executable_candidates(env: &NsisSearchEnv) -> (r: Vec<(String, Vec<String>)>)
    ensures
        locations_view(r@) == nsis_fixed_candidates(*env),
{
    let scoop = scoop_root(env);
    let mut out: Vec<(String, Vec<String>)> = Vec::new();
    let ghost mut expected: Seq<(Seq<char>, Seq<Seq<char>>)> = Seq::empty();
    assert(locations_view(out@) =~= expected);
    let parts: [&str; 2] = ["NSIS", "makensis.exe"];
    proof {
        assert(parts@.map_values(|s: &str| s@) =~= seq!["NSIS"@, "makensis.exe"@]);
        expected = expected + candidate_under(opt_view(env.program_files_x86), seq!["NSIS"@, "makensis.exe"@]);
    }
    add_candidate(&mut out, &env.program_files_x86, &parts);
    let parts: [&str; 2] = ["NSIS", "makensis.exe"];
    proof {
        assert(parts@.map_values(|s: &str| s@) =~= seq!["NSIS"@, "makensis.exe"@]);
        expected = expected + candidate_under(opt_view(env.program_files), seq!["NSIS"@, "makensis.exe"@]);
    }
    add_candidate(&mut out, &env.program_files, &parts);
    let parts: [&str; 2] = ["Nullsoft Scriptable Install System", "makensis.exe"];
    proof {
        assert(parts@.map_values(|s: &str| s@) =~= seq!["Nullsoft Scriptable Install System"@, "makensis.exe"@]);
        expected = expected + candidate_under(opt_view(env.program_files_x86), seq!["Nullsoft Scriptable Install System"@, "makensis.exe"@]);
    }
    add_candidate(&mut out, &env.program_files_x86, &parts);
    let parts: [&str; 2] = ["Nullsoft Scriptable Install System", "makensis.exe"];
    proof {
        assert(parts@.map_values(|s: &str| s@) =~= seq!["Nullsoft Scriptable Install System"@, "makensis.exe"@]);
        expected = expected + candidate_under(opt_view(env.program_files), seq!["Nullsoft Scriptable Install System"@, "makensis.exe"@]);
    }
    add_candidate(&mut out, &env.program_files, &parts);
    let parts: [&str; 3] = ["Programs", "NSIS", "makensis.exe"];
    proof {
        assert(parts@.map_values(|s: &str| s@) =~= seq!["Programs"@, "NSIS"@, "makensis.exe"@]);
        expected = expected + candidate_under(opt_view(env.local_app_data), seq!["Programs"@, "NSIS"@, "makensis.exe"@]);
    }
    add_candidate(&mut out, &env.local_app_data, &parts);
    let parts: [&str; 2] = ["NSIS", "makensis.exe"];
    proof {
        assert(parts@.map_values(|s: &str| s@) =~= seq!["NSIS"@, "makensis.exe"@]);
        expected = expected + candidate_under(opt_view(env.local_app_data), seq!["NSIS"@, "makensis.exe"@]);
    }
    add_candidate(&mut out, &env.local_app_data, &parts);
    let parts: [&str; 2] = ["bin", "makensis.exe"];
    proof {
        assert(parts@.map_values(|s: &str| s@) =~= seq!["bin"@, "makensis.exe"@]);
        expected = expected + candidate_under(opt_view(env.chocolatey_install), seq!["bin"@, "makensis.exe"@]);
    }
    add_candidate(&mut out, &env.chocolatey_install, &parts);
    let parts: [&str; 4] = ["lib", "nsis", "tools", "makensis.exe"];
    proof {
        assert(parts@.map_values(|s: &str| s@) =~= seq!["lib"@, "nsis"@, "tools"@, "makensis.exe"@]);
        expected = expected + candidate_under(opt_view(env.chocolatey_install), seq!["lib"@, "nsis"@, "tools"@, "makensis.exe"@]);
    }
    add_candidate(&mut out, &env.chocolatey_install, &parts);
    let parts: [&str; 4] = ["lib", "nsis.portable", "tools", "makensis.exe"];
    proof {
        assert(parts@.map_values(|s: &str| s@) =~= seq!["lib"@, "nsis.portable"@, "tools"@, "makensis.exe"@]);
        expected = expected + candidate_under(opt_view(env.chocolatey_install), seq!["lib"@, "nsis.portable"@, "tools"@, "makensis.exe"@]);
    }
    add_candidate(&mut out, &env.chocolatey_install, &parts);
    let parts: [&str; 2] = ["shims", "makensis.exe"];
    proof {
        assert(parts@.map_values(|s: &str| s@) =~= seq!["shims"@, "makensis.exe"@]);
        expected = expected + candidate_under(opt_view(scoop), seq!["shims"@, "makensis.exe"@]);
    }
    add_candidate(&mut out, &scoop, &parts);
    let parts: [&str; 4] = ["apps", "nsis", "current", "makensis.exe"];
    proof {
        assert(parts@.map_values(|s: &str| s@) =~= seq!["apps"@, "nsis"@, "current"@, "makensis.exe"@]);
        expected = expected + candidate_under(opt_view(scoop), seq!["apps"@, "nsis"@, "current"@, "makensis.exe"@]);
    }
    add_candidate(&mut out, &scoop, &parts);
    let parts: [&str; 1] = ["makensis.exe"];
    proof {
        assert(parts@.map_values(|s: &str| s@) =~= seq!["makensis.exe"@]);
        expected = expected + candidate_under(opt_view(env.nsis_home), seq!["makensis.exe"@]);
    }
    add_candidate(&mut out, &env.nsis_home, &parts);
    let parts: [&str; 1] = ["makensis.exe"];
    proof {
        assert(parts@.map_values(|s: &str| s@) =~= seq!["makensis.exe"@]);
        expected = expected + candidate_under(opt_view(env.nsis_root), seq!["makensis.exe"@]);
    }
    add_candidate(&mut out, &env.nsis_root, &parts);
    assert(expected == nsis_fixed_candidates(*env));
    out
}

fn add_pattern(out: &mut Vec<String>, base: &Option<String>, suffix: &str)
    ensures
        strings_view(final(out)@) == strings_view(old(out)@) + pattern_under(opt_view(*base), suffix@),
{
    let ghost before = out@;
    match base {
        Some(b) => {
            let mut p = owned(b.as_str());
            p.append(suffix);
            out.push(p);
            assert(strings_view(out@) =~= strings_view(before).push(b@ + suffix@));
        },
        None => {
            assert(strings_view(out@) =~= strings_view(before) + Seq::<Seq<char>>::empty());
        },
    }
}

/// The wildcard patterns searched for versioned NSIS installs (see `nsis_glob_patterns`).
pub fn nsis_search_patterns(env: &NsisSearchEnv) -> (r: Vec<String>)
    ensures
        strings_view(r@) == nsis_glob_patterns(*env),
{
    let scoop = scoop_root(env);
    let mut out: Vec<String> = Vec::new();
    add_pattern(&mut out, &env.local_app_data, "\\Microsoft\\WinGet\\Packages\\*NSIS*\\makensis.exe");
    add_pattern(&mut out, &env.local_app_data, "\\Microsoft\\WinGet\\Packages\\*NSIS*\\*\\makensis.exe");
    add_pattern(
        &mut out,
        &env.local_app_data,
        "\\Microsoft\\WinGet\\Packages\\*NSIS*\\*\\*\\makensis.exe",
    );
    add_pattern(&mut out, &env.local_app_data, "\\Microsoft\\WinGet\\Packages\\*Nullsoft*\\makensis.exe");
    add_pattern(
        &mut out,
        &env.local_app_data,
        "\\Microsoft\\WinGet\\Packages\\*Nullsoft*\\*\\makensis.exe",
    );
    add_pattern(
        &mut out,
        &env.local_app_data,
        "\\Microsoft\\WinGet\\Packages\\*Nullsoft*\\*\\*\\makensis.exe",
    );
    add_pattern(&mut out, &env.program_files_x86, "\\*NSIS*\\makensis.exe");
    add_pattern(&mut out, &env.program_files, "\\*NSIS*\\makensis.exe");
    add_pattern(&mut out, &env.chocolatey_install, "\\lib\\nsis*\\tools\\makensis.exe");
    add_pattern(&mut out, &env.chocolatey_install, "\\lib\\nsis*\\tools\\*\\makensis.exe");
    add_pattern(&mut out, &scoop, "\\apps\\nsis\\*\\makensis.exe");
    out
}

/// The files a Windows bundle (`bundle`) or build root must hold, as path parts below the
/// root: the four executables and the agent configuration, then the service definition
/// (bundles only), the NSIS script and the WiX source when they are required.
pub open spec fn windows_required_parts(bundle: bool, require_nsis: bool, require_wix: bool) -> Seq<
    Seq<Seq<char>>,
> {
    let base = seq![
        seq!["bin"@, "rtc-agent.exe"@],
        seq!["bin"@, "rtc-agent-manager.exe"@],
        seq!["bin"@, "rtc-agent-desktop.exe"@],
        seq!["bin"@, "rtc-agent-installer.exe"@],
        seq!["packaging"@, "windows"@, "agent.config.json"@],
    ];
    let with_service = if bundle {
        base.push(seq!["packaging"@, "windows"@, "RemoteTerminalCloudAgentService.xml"@])
    } else {
        base
    };
    let with_nsis = if require_nsis {
        with_service.push(seq!["packaging"@, "windows"@, "nsis"@, "agent.nsi"@])
    } else {
        with_service
    };
    if require_wix {
        with_nsis.push(seq!["packaging"@, "windows"@, "wix"@, "RemoteTerminalCloudAgent.wxs"@])
    } else {
        with_nsis
    }
}

fn parts_of(parts: &[&str]) -> (r: Vec<String>)
    ensures
        strings_view(r@) == parts@.map_values(|s: &str| s@),
{
    let mut out: Vec<String> = Vec::new();
    let mut i: usize = 0;
    while i < parts.len()
        invariant
            i <= parts@.len(),
            strings_view(out@) =~= parts@.take(i as int).map_values(|s: &str| s@),
        decreases parts@.len() - i,
    {
        let ghost pre = out@;
        out.push(owned(parts[i]));
        assert(strings_view(out@) =~= strings_view(pre).push(parts@[i as int]@));
        assert(parts@.take(i + 1) =~= parts@.take(i as int).push(parts@[i as int]));
        i = i + 1;
    }
    assert(parts@.take(parts@.len() as int) =~= parts@);
    out
}

/// The view of a list of paths given as parts.
pub open spec fn parts_view(v: Seq<Vec<String>>) -> Seq<Seq<Seq<char>>> {
    v.map_values(|p: Vec<String>| strings_view(p@))
}

fn push_parts(out: &mut Vec<Vec<String>>, parts: &[&str])
    ensures
        parts_view(final(out)@) == parts_view(old(out)@).push(parts@.map_values(|s: &str| s@)),
{
    let ghost before = out@;
    let p = parts_of(parts);
    out.push(p);
    assert(parts_view(out@) =~= parts_view(before).push(parts@.map_values(|s: &str| s@)));
}

/// The files a Windows bundle or build root must hold (see `windows_required_parts`).
pub fn windows_required_inputs(bundle: bool, require_nsis: bool, require_wix: bool) -> (r: Vec<
    Vec<String>,
>)
    ensures
        parts_view(r@) == windows_required_parts(bundle, require_nsis, require_wix),
{
    let mut out: Vec<Vec<String>> = Vec::new();
    let a: [&str; 2] = ["bin", "rtc-agent.exe"];
    let b: [&str; 2] = ["bin", "rtc-agent-manager.exe"];
    let c: [&str; 2] = ["bin", "rtc-agent-desktop.exe"];
    let d: [&str; 2] = ["bin", "rtc-agent-installer.exe"];
    let e: [&str; 3] = ["packaging", "windows", "agent.config.json"];
    let f: [&str; 3] = ["packaging", "windows", "RemoteTerminalCloudAgentService.xml"];
    let g: [&str; 4] = ["packaging", "windows", "nsis", "agent.nsi"];
    let h: [&str; 4] = ["packaging", "windows", "wix", "RemoteTerminalCloudAgent.wxs"];
    proof {
        assert(a@.map_values(|s: &str| s@) =~= seq!["bin"@, "rtc-agent.exe"@]);
        assert(b@.map_values(|s: &str| s@) =~= seq!["bin"@, "rtc-agent-manager.exe"@]);
        assert(c@.map_values(|s: &str| s@) =~= seq!["bin"@, "rtc-agent-desktop.exe"@]);
        assert(d@.map_values(|s: &str| s@) =~= seq!["bin"@, "rtc-agent-installer.exe"@]);
        assert(e@.map_values(|s: &str| s@) =~= seq!["packaging"@, "windows"@, "agent.config.json"@]);
        assert(f@.map_values(|s: &str| s@) =~= seq![
            "packaging"@,
            "windows"@,
            "RemoteTerminalCloudAgentService.xml"@,
        ]);
        assert(g@.map_values(|s: &str| s@) =~= seq!["packaging"@, "windows"@, "nsis"@, "agent.nsi"@]);
        assert(h@.map_values(|s: &str| s@) =~= seq![
            "packaging"@,
            "windows"@,
            "wix"@,
            "RemoteTerminalCloudAgent.wxs"@,
        ]);
    }
    push_parts(&mut out, &a);
    push_parts(&mut out, &b);
    push_parts(&mut out, &c);
    push_parts(&mut out, &d);
    push_parts(&mut out, &e);
    if bundle {
        push_parts(&mut out, &f);
    }
    if require_nsis {
        push_parts(&mut out, &g);
    }
    if require_wix {
        push_parts(&mut out, &h);
    }
    out
}

/// The first path that does not exist, among paths paired with whether they exist.
pub open spec fn first_missing(paths: Seq<(Seq<char>, bool)>) -> Option<Seq<char>>
    decreases paths.len(),
{
    if paths.len() == 0 {
        None
    } else if !paths[0].1 {
        Some(paths[0].0)
    } else {
        first_missing(paths.drop_first())
    }
}

/// Checks required inputs, each paired with whether it exists: the first missing one is
/// reported as `required <kind> missing: <path>`.
pub fn check_required_paths(kind: &str, paths: &Vec<(String, bool)>) -> (r: Result<(), String>)
    ensures
        match first_missing(paths@.map_values(|p: (String, bool)| (p.0@, p.1))) {
            Some(missing) => r matches Err(e) && e@ == "required "@ + kind@ + " missing: "@ + missing,
            None => r is Ok,
        },
{
    let ghost all = paths@.map_values(|p: (String, bool)| (p.0@, p.1));
    let mut i: usize = 0;
    assert(all.skip(0) =~= all);
    while i < paths.len()
        invariant
            i <= paths@.len(),
            all == paths@.map_values(|p: (String, bool)| (p.0@, p.1)),
            first_missing(all) == first_missing(all.skip(i as int)),
        decreases paths@.len() - i,
    {
        assert(all.skip(i as int).drop_first() =~= all.skip(i + 1));
        if !paths[i].1 {
            let mut e = owned("required ");
            e.append(kind);
            e.append(" missing: ");
            e.append(paths[i].0.as_str());
            return Err(e);
        }
        i = i + 1;
    }
    Ok(())
}

/// A packaging run: the project root, the version, the target names and the directories
/// the run writes, each as path components starting at the project root.
#[derive(Debug, Clone)]
pub struct PackagingContext {
    pub project_root: String,
    pub version: String,
    pub target_platform: String,
    pub target_arch: String,
    pub os_name: String,
    pub arch_name: String,
    pub release_root: Vec<String>,
    pub bundle_root: Vec<String>,
    pub platform_out_root: Vec<String>,
    pub stage_root: Vec<String>,
    pub archive_base_name: String,
}

/// `c` is the packaging run for a project root, the version in its `VERSION` file and a
/// target (see `names_for`): `release/`, `release/<bundle>`,
/// `release/artifacts/<platform>-<arch>` and the staging directory `<bundle>` inside it,
/// and the archive base name `<bundle>-<platform>-<arch>`.
pub open spec fn is_context_for(
    c: PackagingContext,
    project_root: Seq<char>,
    version: Seq<char>,
    env_platform: Option<Seq<char>>,
    env_arch: Option<Seq<char>>,
    host_os: Seq<char>,
    host_arch: Seq<char>,
) -> bool {
    let n = names_for(version, env_platform, env_arch, host_os, host_arch);
    &&& c.project_root@ == project_root
    &&& c.version@ == version
    &&& c.target_platform@ == n.0
    &&& c.target_arch@ == n.1
    &&& c.os_name@ == n.2
    &&& c.arch_name@ == n.3
    &&& strings_view(c.release_root@) == seq![project_root, "release"@]
    &&& strings_view(c.bundle_root@) == seq![project_root, "release"@, n.4]
    &&& strings_view(c.platform_out_root@) == seq![project_root, "release"@, "artifacts"@, n.5]
    &&& strings_view(c.stage_root@) == seq![project_root, "release"@, "artifacts"@, n.5, n.4]
    &&& c.archive_base_name@ == n.4 + "-"@ + n.5
}

/// Resolves the packaging run for a project root from the content of its `VERSION` file,
/// `RTC_TARGET_PLATFORM` and `RTC_TARGET_ARCH`, and the host (see `is_context_for`); an
/// empty `VERSION` file is refused.
pub fn resolve_packaging_context(
    project_root: &str,
    version_file: &str,
    env_platform: &Option<String>,
    env_arch: &Option<String>,
    host_os: &str,
    host_arch: &str,
) -> (r: Result<PackagingContext, String>)
    ensures
        (r is Ok) == (trim_seq(version_file@).len() > 0),
        r matches Err(e) ==> e@ == "VERSION is empty"@,
        r matches Ok(c) ==> is_context_for(
            c,
            project_root@,
            trim_seq(version_file@),
            opt_view(*env_platform),
            opt_view(*env_arch),
            host_os@,
            host_arch@,
        ),
{
    let version = match read_version(version_file) {
        Ok(v) => v,
        Err(e) => {
            return Err(e);
        },
    };
    let names = packaging_names(version.as_str(), env_platform, env_arch, host_os, host_arch);
    let mut release_root: Vec<String> = Vec::new();
    release_root.push(owned(project_root));
    release_root.push(owned("release"));
    let mut bundle_root: Vec<String> = Vec::new();
    bundle_root.push(owned(project_root));
    bundle_root.push(owned("release"));
    bundle_root.push(owned(names.bundle_dir_name.as_str()));
    let mut platform_out_root: Vec<String> = Vec::new();
    platform_out_root.push(owned(project_root));
    platform_out_root.push(owned("release"));
    platform_out_root.push(owned("artifacts"));
    platform_out_root.push(owned(names.platform_dir_name.as_str()));
    let mut stage_root: Vec<String> = Vec::new();
    stage_root.push(owned(project_root));
    stage_root.push(owned("release"));
    stage_root.push(owned("artifacts"));
    stage_root.push(owned(names.platform_dir_name.as_str()));
    stage_root.push(owned(names.bundle_dir_name.as_str()));
    let c = PackagingContext {
        project_root: owned(project_root),
        version: names.version,
        target_platform: names.target_platform,
        target_arch: names.target_arch,
        os_name: names.os_name,
        arch_name: names.arch_name,
        release_root,
        bundle_root,
        platform_out_root,
        stage_root,
        archive_base_name: names.archive_base_name,
    };
    assert(strings_view(c.release_root@) =~= seq![project_root@, "release"@]);
    assert(strings_view(c.bundle_root@) =~= seq![project_root@, "release"@, names.bundle_dir_name@]);
    assert(strings_view(c.platform_out_root@) =~= seq![
        project_root@,
        "release"@,
        "artifacts"@,
        names.platform_dir_name@,
    ]);
    assert(strings_view(c.stage_root@) =~= seq![
        project_root@,
        "release"@,
        "artifacts"@,
        names.platform_dir_name@,
        names.bundle_dir_name@,
    ]);
    Ok(c)
}

/// A packaging command and its arguments.
#[derive(Debug, Clone)]
pub enum PackagingCommand {
    Build,
    Bundle,
    Artifact,
    WindowsDownloadWinsw { target_exe: String, winsw_version: String, force: bool },
    WindowsNsisStage {
        bundle_root: String,
        stage_root: String,
        winsw_version: String,
        include_service: bool,
        force: bool,
    },
    WindowsNsisBuild {
        build_root: String,
        output_dir: String,
        version: Option<String>,
        nsis_exe: Option<String>,
    },
    WindowsMsiStage {
        bundle_root: String,
        stage_root: String,
        winsw_version: String,
        include_service: bool,
        force: bool,
    },
    WindowsMsiBuild {
        build_root: String,
        output_dir: String,
        wix_exe: Option<String>,
        accept_eula: bool,
    },
}

/// The name a packaging command reports its result under.
pub open spec fn command_name_of(command: PackagingCommand) -> Seq<char> {
    match command {
        PackagingCommand::Build => "build"@,
        PackagingCommand::Bundle => "bundle"@,
        PackagingCommand::Artifact => "artifact"@,
        PackagingCommand::WindowsDownloadWinsw { .. } => "windows-download-winsw"@,
        PackagingCommand::WindowsNsisStage { .. } => "windows-nsis-stage"@,
        PackagingCommand::WindowsNsisBuild { .. } => "windows-nsis-build"@,
        PackagingCommand::WindowsMsiStage { .. } => "windows-msi-stage"@,
        PackagingCommand::WindowsMsiBuild { .. } => "windows-msi-build"@,
    }
}

/// The name a packaging command reports its result under (see `command_name_of`).
pub fn packaging_command_name(command: &PackagingCommand) -> (r: &'static str)
    ensures
        r@ == command_name_of(*command),
{
    match command {
        PackagingCommand::Build => "build",
        PackagingCommand::Bundle => "bundle",
        PackagingCommand::Artifact => "artifact",
        PackagingCommand::WindowsDownloadWinsw { .. } => "windows-download-winsw",
        PackagingCommand::WindowsNsisStage { .. } => "windows-nsis-stage",
        PackagingCommand::WindowsNsisBuild { .. } => "windows-nsis-build",
        PackagingCommand::WindowsMsiStage { .. } => "windows-msi-stage",
        PackagingCommand::WindowsMsiBuild { .. } => "windows-msi-build",
    }
}

} // verus!
