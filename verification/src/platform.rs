//! Platform facts: which shells a host offers, which one becomes the default, and the host
//! snapshot reported to the backend.
use vstd::prelude::*;

use crate::protocol::{
    AgentCapabilities, HostDiagnostics, HostSnapshot, PlatformId, ShellType, SshCheck,
};
use crate::text::{owned, str_eq, strings_view};

verus! {

/// Where the agent keeps its configuration, preferences and logs.
#[derive(Debug, Clone)]
pub struct ManagerPaths {
    pub config_dir: String,
    pub config_file_path: String,
    pub preferences_path: String,
    pub logs_dir: String,
}

/// The platform of a target operating system name (`std::env::consts::OS`): `windows`,
/// `macos`, and Linux for every other Unix.
pub open spec fn platform_of_os(os: Seq<char>) -> PlatformId {
    if os == "windows"@ {
        PlatformId::Windows
    } else if os == "macos"@ {
        PlatformId::Macos
    } else {
        PlatformId::Linux
    }
}

/// The platform the agent was built for, given the target operating system name.
pub fn current_platform(target_os: &str) -> (r: PlatformId)
    ensures
        r == platform_of_os(target_os@),
{
    if str_eq(target_os, "windows") {
        PlatformId::Windows
    } else if str_eq(target_os, "macos") {
        PlatformId::Macos
    } else {
        PlatformId::Linux
    }
}

/// The default shell to use: the configured one when available, else the system default
/// when available, else the first available shell; the configured one when none is.
pub open spec fn default_shell_choice(configured: ShellType, available: Seq<ShellType>) -> ShellType {
    if available.contains(configured) {
        configured
    } else if available.contains(ShellType::SystemDefault) {
        ShellType::SystemDefault
    } else if available.len() > 0 {
        available[0]
    } else {
        configured
    }
}

/// Picks the default shell among the available ones (see `default_shell_choice`).
pub fn resolve_default_shell(configured: ShellType, available: &[ShellType]) -> (r: ShellType)
    ensures
        r == default_shell_choice(configured, available@),
        available@.len() > 0 ==> available@.contains(r),
        available@.contains(configured) ==> r == configured,
{
    let mut has_configured = false;
    let mut has_default = false;
    let mut i: usize = 0;
    while i < available.len()
        invariant
            i <= available@.len(),
            has_configured == available@.take(i as int).contains(configured),
            has_default == available@.take(i as int).contains(ShellType::SystemDefault),
        decreases available@.len() - i,
    {
        let s = available[i];
        proof {
            assert(available@.take(i + 1) =~= available@.take(i as int).push(s));
        }
        if s == configured {
            has_configured = true;
        }
        if s == ShellType::SystemDefault {
            has_default = true;
        }
        proof {
            assert(available@.take(i + 1).contains(configured) == (available@.take(
                i as int,
            ).contains(configured) || s == configured)) by {
                if s == configured {
                    assert(available@.take(i + 1)[i as int] == s);
                }
            }
            assert(available@.take(i + 1).contains(ShellType::SystemDefault) == (available@.take(
                i as int,
            ).contains(ShellType::SystemDefault) || s == ShellType::SystemDefault)) by {
                if s == ShellType::SystemDefault {
                    assert(available@.take(i + 1)[i as int] == s);
                }
            }
        }
        i = i + 1;
    }
    assert(available@.take(available@.len() as int) =~= available@);
    if has_configured {
        configured
    } else if has_default {
        ShellType::SystemDefault
    } else if available.len() > 0 {
        assert(available@.contains(available@[0]));
        available[0]
    } else {
        configured
    }
}

/// Install formats offered per platform.
pub open spec fn install_formats(platform: PlatformId) -> Seq<Seq<char>> {
    match platform {
        PlatformId::Windows => seq!["exe"@],
        PlatformId::Linux => seq!["deb"@, "rpm"@, "binary"@],
        PlatformId::Macos => seq!["pkg"@, "signed-helper"@],
    }
}

/// The install formats offered on a platform.
pub fn install_formats_for(platform: PlatformId) -> (r: Vec<String>)
    ensures
        strings_view(r@) == install_formats(platform),
{
    let mut v: Vec<String> = Vec::new();
    match platform {
        PlatformId::Windows => {
            v.push(owned("exe"));
        },
        PlatformId::Linux => {
            v.push(owned("deb"));
            v.push(owned("rpm"));
            v.push(owned("binary"));
        },
        PlatformId::Macos => {
            v.push(owned("pkg"));
            v.push(owned("signed-helper"));
        },
    }
    assert(strings_view(v@) =~= install_formats(platform));
    v
}

/// The service manager that runs the agent on each platform.
pub open spec fn service_manager(platform: PlatformId) -> Seq<char> {
    match platform {
        PlatformId::Windows => "Windows Service"@,
        PlatformId::Linux => "systemd"@,
        PlatformId::Macos => "launchd"@,
    }
}

/// The service manager that runs the agent on a platform.
pub fn service_manager_for(platform: PlatformId) -> (r: &'static str)
    ensures
        r@ == service_manager(platform),
{
    match platform {
        PlatformId::Windows => "Windows Service",
        PlatformId::Linux => "systemd",
        PlatformId::Macos => "launchd",
    }
}

/// The SSH precheck detail per platform.
pub open spec fn ssh_detail(platform: PlatformId) -> Seq<char> {
    match platform {
        PlatformId::Windows => "sshd service status probe will be implemented in Rust runtime."@,
        PlatformId::Linux => "sshd binary probe will be implemented in Rust runtime."@,
        PlatformId::Macos => "Remote Login probe will be implemented in Rust runtime."@,
    }
}

/// The SSH precheck reported for a platform: available, with a platform detail.
pub fn ssh_check_for(platform: PlatformId) -> (r: SshCheck)
    ensures
        r.available,
        r.detail@ == ssh_detail(platform),
{
    match platform {
        PlatformId::Windows => SshCheck {
            available: true,
            detail: owned("sshd service status probe will be implemented in Rust runtime."),
        },
        PlatformId::Linux => SshCheck {
            available: true,
            detail: owned("sshd binary probe will be implemented in Rust runtime."),
        },
        PlatformId::Macos => SshCheck {
            available: true,
            detail: owned("Remote Login probe will be implemented in Rust runtime."),
        },
    }
}

/// The deployment notes per platform.
pub open spec fn platform_notes(platform: PlatformId) -> Seq<Seq<char>> {
    match platform {
        PlatformId::Windows => seq![
            "MVP expects local OpenSSH Server."@,
            "Validate UAC, Defender and localized paths."@,
        ],
        PlatformId::Linux => seq![
            "MVP expects local sshd."@,
            "Validate glibc, SELinux and filesystem constraints."@,
        ],
        PlatformId::Macos => seq![
            "MVP expects Remote Login/OpenSSH."@,
            "Validate notarization and Full Disk Access."@,
        ],
    }
}

/// The deployment notes for a platform.
pub fn notes_for(platform: PlatformId) -> (r: Vec<String>)
    ensures
        strings_view(r@) == platform_notes(platform),
{
    let mut v: Vec<String> = Vec::new();
    match platform {
        PlatformId::Windows => {
            v.push(owned("MVP expects local OpenSSH Server."));
            v.push(owned("Validate UAC, Defender and localized paths."));
        },
        PlatformId::Linux => {
            v.push(owned("MVP expects local sshd."));
            v.push(owned("Validate glibc, SELinux and filesystem constraints."));
        },
        PlatformId::Macos => {
            v.push(owned("MVP expects Remote Login/OpenSSH."));
            v.push(owned("Validate notarization and Full Disk Access."));
        },
    }
    assert(strings_view(v@) =~= platform_notes(platform));
    v
}

/// Shells that are always offered on a platform.
pub open spec fn base_shells(platform: PlatformId) -> Seq<ShellType> {
    match platform {
        PlatformId::Windows => seq![ShellType::SystemDefault, ShellType::Cmd],
        _ => seq![ShellType::SystemDefault],
    }
}

/// Shells offered when their executable is found, in probing order.
pub open spec fn optional_shells(platform: PlatformId) -> Seq<ShellType> {
    match platform {
        PlatformId::Windows => seq![ShellType::Powershell, ShellType::Pwsh],
        _ => seq![ShellType::Bash, ShellType::Zsh, ShellType::Sh, ShellType::Pwsh],
    }
}

/// The optional shells whose executable was found.
pub open spec fn found_shells(options: Seq<ShellType>, found: Seq<bool>) -> Seq<ShellType>
    decreases options.len(),
{
    if options.len() == 0 || found.len() == 0 {
        Seq::<ShellType>::empty()
    } else {
        let rest = found_shells(options.drop_last(), found.take(found.len() - 1));
        if found.last() {
            rest.push(options.last())
        } else {
            rest
        }
    }
}

/// The shells that are enabled: all of them when nothing is enabled explicitly.
pub open spec fn enabled_only(shells: Seq<ShellType>, enabled: Seq<ShellType>) -> Seq<ShellType>
    decreases shells.len(),
{
    if enabled.len() == 0 || shells.len() == 0 {
        shells
    } else if enabled.contains(shells.last()) {
        enabled_only(shells.drop_last(), enabled).push(shells.last())
    } else {
        enabled_only(shells.drop_last(), enabled)
    }
}

/// The shells offered on a platform given which optional executables were found and which
/// shells are enabled.
pub open spec fn available_shell_list(
    platform: PlatformId,
    found: Seq<bool>,
    enabled: Seq<ShellType>,
) -> Seq<ShellType> {
    enabled_only(base_shells(platform) + found_shells(optional_shells(platform), found), enabled)
}

/// The executable probed for each optional shell, in probing order.
pub open spec fn optional_executables(platform: PlatformId) -> Seq<Seq<char>> {
    match platform {
        PlatformId::Windows => seq!["powershell.exe"@, "pwsh.exe"@],
        _ => seq!["bash"@, "zsh"@, "sh"@, "pwsh"@],
    }
}

/// The shells offered, given the probe results for `optional_shells(platform)` in order.
pub fn available_shells(platform: PlatformId, found: &[bool], enabled: &[ShellType]) -> (r: Vec<
    ShellType,
>)
    requires
        found@.len() == optional_shells(platform).len(),
    ensures
        r@ == available_shell_list(platform, found@, enabled@),
{
    let mut detected: Vec<ShellType> = Vec::new();
    detected.push(ShellType::SystemDefault);
    let options: Vec<ShellType> = match platform {
        PlatformId::Windows => {
            detected.push(ShellType::Cmd);
            let mut o: Vec<ShellType> = Vec::new();
            o.push(ShellType::Powershell);
            o.push(ShellType::Pwsh);
            o
        },
        _ => {
            let mut o: Vec<ShellType> = Vec::new();
            o.push(ShellType::Bash);
            o.push(ShellType::Zsh);
            o.push(ShellType::Sh);
            o.push(ShellType::Pwsh);
            o
        },
    };
    assert(detected@ =~= base_shells(platform));
    assert(options@ =~= optional_shells(platform));
    let ghost base = detected@;
    let mut i: usize = 0;
    while i < options.len()
        invariant
            options@ == optional_shells(platform),
            found@.len() == options@.len(),
            base == base_shells(platform),
            i <= options.len(),
            detected@ == base + found_shells(options@.take(i as int), found@.take(i as int)),
        decreases options.len() - i,
    {
        proof {
            assert(options@.take(i + 1).drop_last() =~= options@.take(i as int));
            assert(found@.take(i + 1).take(i as int) =~= found@.take(i as int));
            assert(found@.take(i + 1).last() == found@[i as int]);
            assert(options@.take(i + 1).last() == options@[i as int]);
        }
        if found[i] {
            let ghost before = detected@;
            detected.push(options[i]);
            assert(detected@ =~= before.push(options@[i as int]));
            assert(base + found_shells(options@.take(i + 1), found@.take(i + 1)) =~= (base
                + found_shells(options@.take(i as int), found@.take(i as int))).push(
                options@[i as int],
            ));
        }
        i = i + 1;
    }
    assert(options@.take(options.len() as int) =~= options@);
    assert(found@.take(options.len() as int) =~= found@);
    if enabled.len() == 0 {
        return detected;
    }
    let ghost all = detected@;
    let mut out: Vec<ShellType> = Vec::new();
    let mut k: usize = 0;
    while k < detected.len()
        invariant
            all == detected@,
            enabled@.len() > 0,
            k <= detected.len(),
            out@ == enabled_only(all.take(k as int), enabled@),
        decreases detected.len() - k,
    {
        let s = detected[k];
        proof {
            assert(all.take(k + 1).drop_last() =~= all.take(k as int));
            assert(all.take(k + 1).last() == s);
        }
        let mut listed = false;
        let mut j: usize = 0;
        while j < enabled.len()
            invariant
                j <= enabled@.len(),
                listed == enabled@.take(j as int).contains(s),
            decreases enabled@.len() - j,
        {
            proof {
                assert(enabled@.take(j + 1) =~= enabled@.take(j as int).push(enabled@[j as int]));
            }
            if enabled[j] == s {
                listed = true;
                assert(enabled@.take(j + 1)[j as int] == s);
            }
            j = j + 1;
        }
        assert(enabled@.take(enabled@.len() as int) =~= enabled@);
        if listed {
            out.push(s);
        }
        k = k + 1;
    }
    assert(all.take(detected.len() as int) =~= all);
    out
}

/// Whether an executable of that name is found on `PATH` (`which::which` succeeds).
#[verifier::external_body]
fn executable_found(name: &str) -> (r: bool) {
    which::which(name).is_ok()
}

/// The name of this machine (`hostname::get`), empty when it cannot be read.
#[verifier::external_body]
fn system_hostname() -> (r: String) {
    hostname::get().unwrap_or_default().to_string_lossy().to_string()
}

/// Probes the optional shells of a platform and returns the shells offered (see
/// `available_shell_list`); which executables are found depends on the host.
pub fn detect_available_shells(platform: PlatformId, enabled_shells: &[ShellType]) -> (r: Vec<
    ShellType,
>)
    ensures
        exists|found: Seq<bool>|
            found.len() == optional_shells(platform).len() && r@ == available_shell_list(
                platform,
                found,
                enabled_shells@,
            ),
{
    let mut found: Vec<bool> = Vec::new();
    match platform {
        PlatformId::Windows => {
            found.push(executable_found("powershell.exe"));
            found.push(executable_found("pwsh.exe"));
        },
        _ => {
            found.push(executable_found(ShellType::Bash.as_str()));
            found.push(executable_found(ShellType::Zsh.as_str()));
            found.push(executable_found(ShellType::Sh.as_str()));
            found.push(executable_found(ShellType::Pwsh.as_str()));
        },
    }
    available_shells(platform, found.as_slice(), enabled_shells)
}

/// The capabilities this agent build advertises.
pub open spec fn agent_capabilities() -> AgentCapabilities {
    AgentCapabilities {
        ssh_forward: true,
        native_pty: true,
        self_update: true,
        proxy_aware: true,
        service_managed: true,
        session_recording: false,
    }
}

/// Collects the host snapshot for a platform and architecture: the host name as the system
/// reports it, the shells offered (see `detect_available_shells`) and the platform facts.
pub fn collect_host_snapshot(
    platform: PlatformId,
    arch: &str,
    agent_version: &str,
    enabled_shells: &[ShellType],
    default_log_path: String,
) -> (r: HostSnapshot)
    ensures
        r.platform == Some(platform),
        r.arch@ == arch@,
        r.agent_version@ == agent_version@,
        r.capabilities == agent_capabilities(),
        strings_view(r.diagnostics.install_formats@) == install_formats(platform),
        r.diagnostics.service_manager@ == service_manager(platform),
        r.diagnostics.default_log_path@ == default_log_path@,
        exists|found: Seq<bool>|
            found.len() == optional_shells(platform).len()
                && r.diagnostics.available_shells@ == available_shell_list(
                platform,
                found,
                enabled_shells@,
            ),
        r.diagnostics.ssh_check.available,
        r.diagnostics.ssh_check.detail@ == ssh_detail(platform),
        strings_view(r.diagnostics.notes@) == platform_notes(platform),
{
    let available_shells = detect_available_shells(platform, enabled_shells);
    let hostname = system_hostname();
    HostSnapshot {
        hostname,
        platform: Some(platform),
        arch: owned(arch),
        agent_version: owned(agent_version),
        capabilities: AgentCapabilities {
            ssh_forward: true,
            native_pty: true,
            self_update: true,
            proxy_aware: true,
            service_managed: true,
            session_recording: false,
        },
        diagnostics: HostDiagnostics {
            install_formats: install_formats_for(platform),
            service_manager: owned(service_manager_for(platform)),
            default_log_path,
            available_shells,
            ssh_check: ssh_check_for(platform),
            notes: notes_for(platform),
        },
    }
}

/// The default shell is always available when any shell is, and stays the configured one
/// whenever that is available.
pub proof fn lemma_default_shell_available(configured: ShellType, available: Seq<ShellType>)
    ensures
        available.len() > 0 ==> available.contains(default_shell_choice(configured, available)),
        available.contains(configured) ==> default_shell_choice(configured, available)
            == configured,
        available.len() == 0 ==> default_shell_choice(configured, available) == configured,
{
    if available.len() > 0 {
        assert(available.contains(available[0]));
    }
}

} // verus!
