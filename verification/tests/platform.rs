use rtc_agent::platform::{
    current_platform, install_formats_for, notes_for, resolve_default_shell, service_manager_for,
    ssh_check_for,
};
use rtc_agent::protocol::{PlatformId, ShellType};

#[test]
fn resolve_uses_configured_when_available() {
    let available = vec![ShellType::Bash, ShellType::Zsh, ShellType::SystemDefault];
    assert_eq!(resolve_default_shell(ShellType::Bash, &available), ShellType::Bash);
}

#[test]
fn resolve_falls_back_to_system_default() {
    let available = vec![ShellType::SystemDefault, ShellType::Sh];
    assert_eq!(resolve_default_shell(ShellType::Bash, &available), ShellType::SystemDefault);
}

#[test]
fn resolve_falls_back_to_first_available() {
    let available = vec![ShellType::Zsh];
    assert_eq!(resolve_default_shell(ShellType::Bash, &available), ShellType::Zsh);
}

#[test]
fn resolve_returns_configured_when_none_available() {
    let available: Vec<ShellType> = vec![];
    assert_eq!(resolve_default_shell(ShellType::Bash, &available), ShellType::Bash);
}

#[test]
fn resolve_configured_is_system_default_and_available() {
    let available = vec![ShellType::SystemDefault, ShellType::Bash];
    assert_eq!(
        resolve_default_shell(ShellType::SystemDefault, &available),
        ShellType::SystemDefault
    );
}

#[test]
fn resolve_deduplicates_available_shells() {
    let available = vec![ShellType::Bash, ShellType::Bash, ShellType::Zsh];
    assert_eq!(resolve_default_shell(ShellType::Zsh, &available), ShellType::Zsh);
}

#[test]
fn current_platform_returns_expected() {
    assert_eq!(current_platform("windows"), PlatformId::Windows);
    assert_eq!(current_platform("linux"), PlatformId::Linux);
    assert_eq!(current_platform("macos"), PlatformId::Macos);
}

#[test]
fn install_formats_for_windows() {
    let formats = install_formats_for(PlatformId::Windows);
    assert_eq!(formats, vec!["exe"]);
}

#[test]
fn install_formats_for_linux() {
    let formats = install_formats_for(PlatformId::Linux);
    assert_eq!(formats, vec!["deb", "rpm", "binary"]);
}

#[test]
fn install_formats_for_macos() {
    let formats = install_formats_for(PlatformId::Macos);
    assert_eq!(formats, vec!["pkg", "signed-helper"]);
}

#[test]
fn service_manager_for_windows() {
    assert_eq!(service_manager_for(PlatformId::Windows), "Windows Service");
}

#[test]
fn service_manager_for_linux() {
    assert_eq!(service_manager_for(PlatformId::Linux), "systemd");
}

#[test]
fn service_manager_for_macos() {
    assert_eq!(service_manager_for(PlatformId::Macos), "launchd");
}

#[test]
fn ssh_check_for_windows() {
    let check = ssh_check_for(PlatformId::Windows);
    assert!(check.available);
    assert!(check.detail.contains("sshd"));
}

#[test]
fn ssh_check_for_linux() {
    let check = ssh_check_for(PlatformId::Linux);
    assert!(check.available);
    assert!(check.detail.contains("sshd"));
}

#[test]
fn ssh_check_for_macos() {
    let check = ssh_check_for(PlatformId::Macos);
    assert!(check.available);
    assert!(check.detail.contains("Remote Login"));
}

#[test]
fn notes_for_windows() {
    let notes = notes_for(PlatformId::Windows);
    assert!(notes.iter().any(|n| n.contains("OpenSSH")));
}

#[test]
fn notes_for_linux() {
    let notes = notes_for(PlatformId::Linux);
    assert!(notes.iter().any(|n| n.contains("sshd")));
}

#[test]
fn notes_for_macos() {
    let notes = notes_for(PlatformId::Macos);
    assert!(notes.iter().any(|n| n.contains("Remote Login")));
}

#[test]
fn unknown_operating_system_counts_as_linux() {
    assert_eq!(current_platform("freebsd"), PlatformId::Linux);
}

#[test]
fn resolved_default_shell_is_available() {
    let available = vec![ShellType::Pwsh, ShellType::Cmd];
    let chosen = resolve_default_shell(ShellType::Zsh, &available);
    assert!(available.contains(&chosen));
}
