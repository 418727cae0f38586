use rtc_agent::protocol::{DirectoryEntry, PlatformId, ShellType};
use rtc_agent::shell::{
    build_shell_env, directory_listing, merge_shell_env, parse_env_output, plan_session_start,
    plan_working_directory, pty_dimension, resolve_shell_launch, sort_directory_entries,
    windows_root_listing, DirectoryProbe,
};

fn pairs(items: &[(&str, &str)]) -> Vec<(String, String)> {
    items.iter().map(|(k, v)| (k.to_string(), v.to_string())).collect()
}

#[test]
fn system_default_uses_login_shell_on_unix() {
    let launch = resolve_shell_launch(
        ShellType::SystemDefault,
        ShellType::SystemDefault,
        PlatformId::Linux,
        Some("/usr/bin/fish".into()),
    )
    .unwrap();
    assert_eq!(launch.executable, "/usr/bin/fish");
    assert_eq!(launch.args, vec!["-i"]);
    assert_eq!(launch.shell_type, ShellType::SystemDefault);
}

#[test]
fn blank_login_shell_falls_back_to_bash() {
    let launch = resolve_shell_launch(
        ShellType::SystemDefault,
        ShellType::SystemDefault,
        PlatformId::Macos,
        Some("   ".into()),
    )
    .unwrap();
    assert_eq!(launch.executable, "/bin/bash");
}

#[test]
fn requested_system_default_uses_configured_default() {
    let launch =
        resolve_shell_launch(ShellType::SystemDefault, ShellType::Zsh, PlatformId::Linux, None)
            .unwrap();
    assert_eq!(launch.executable, "zsh");
    assert_eq!(launch.shell_type, ShellType::Zsh);
}

#[test]
fn pwsh_on_unix_runs_without_logo() {
    let launch =
        resolve_shell_launch(ShellType::Pwsh, ShellType::Bash, PlatformId::Linux, None).unwrap();
    assert_eq!(launch.executable, "pwsh");
    assert_eq!(launch.args, vec!["-NoLogo"]);
}

#[test]
fn windows_shells_are_refused_on_unix() {
    let err = resolve_shell_launch(ShellType::Cmd, ShellType::Bash, PlatformId::Linux, None)
        .unwrap_err();
    assert_eq!(err, "shell is not supported on this platform");
}

#[test]
fn cmd_on_windows_uses_comspec_and_utf8() {
    let launch = resolve_shell_launch(
        ShellType::SystemDefault,
        ShellType::SystemDefault,
        PlatformId::Windows,
        Some("C:\\Windows\\system32\\cmd.exe".into()),
    )
    .unwrap();
    assert_eq!(launch.executable, "C:\\Windows\\system32\\cmd.exe");
    assert_eq!(launch.args, vec!["/d", "/k", "chcp 65001>nul"]);
    assert_eq!(launch.shell_type, ShellType::Cmd);
}

#[test]
fn powershell_on_windows_switches_to_utf8() {
    let launch =
        resolve_shell_launch(ShellType::Powershell, ShellType::Cmd, PlatformId::Windows, None)
            .unwrap();
    assert_eq!(launch.executable, "powershell.exe");
    assert_eq!(launch.args.len(), 4);
    assert!(launch.args[3].starts_with("[Console]::InputEncoding"));
    assert!(launch.args[3].ends_with("chcp 65001 > $null"));
}

#[test]
fn unix_shells_are_refused_on_windows() {
    let err = resolve_shell_launch(ShellType::Bash, ShellType::Cmd, PlatformId::Windows, None)
        .unwrap_err();
    assert_eq!(err, "shell is not supported on Windows");
}

#[test]
fn working_directory_used_when_it_is_a_directory() {
    let plan = plan_working_directory("  /srv/app  ", DirectoryProbe::IsDirectory);
    assert_eq!(plan.path, Some("/srv/app".into()));
    assert_eq!(plan.warning, None);
}

#[test]
fn blank_working_directory_means_default() {
    let plan = plan_working_directory("   ", DirectoryProbe::NotDirectory);
    assert_eq!(plan.path, None);
    assert_eq!(plan.warning, None);
}

#[test]
fn file_as_working_directory_warns() {
    let plan = plan_working_directory("/etc/passwd", DirectoryProbe::NotDirectory);
    assert_eq!(plan.path, None);
    assert_eq!(
        plan.warning.unwrap(),
        "Unable to use working directory \"/etc/passwd\", fallback to default directory: selected path is not a directory."
    );
}

#[test]
fn unreadable_working_directory_warns_with_error() {
    let plan = plan_working_directory("/nope", DirectoryProbe::Unreadable("No such file".into()));
    assert_eq!(
        plan.warning.unwrap(),
        "Unable to use working directory \"/nope\", fallback to default directory: No such file"
    );
}

#[test]
fn existing_session_is_refused() {
    let err = plan_session_start(
        true,
        ShellType::Bash,
        ShellType::Bash,
        PlatformId::Linux,
        None,
        "",
        DirectoryProbe::IsDirectory,
    )
    .unwrap_err();
    assert_eq!(err, "Session already exists.");
}

#[test]
fn new_session_gets_launch_and_directory() {
    let plan = plan_session_start(
        false,
        ShellType::Sh,
        ShellType::Bash,
        PlatformId::Linux,
        None,
        "/tmp",
        DirectoryProbe::IsDirectory,
    )
    .unwrap();
    assert_eq!(plan.launch.executable, "sh");
    assert_eq!(plan.working_directory.path, Some("/tmp".into()));
}

#[test]
fn pty_dimensions_are_at_least_one() {
    assert_eq!(pty_dimension(0), 1);
    assert_eq!(pty_dimension(-5), 1);
    assert_eq!(pty_dimension(120), 120);
    assert_eq!(pty_dimension(70000), 70000u32 as u16);
}

#[test]
fn shell_env_adds_terminal_variables() {
    let process = pairs(&[("PATH", "/bin"), ("TERM", "  screen  ")]);
    let env = build_shell_env(&process, &Vec::new(), PlatformId::Linux);
    assert_eq!(
        env,
        pairs(&[
            ("PATH", "/bin"),
            ("TERM", "  screen  "),
            ("TERM", "screen"),
            ("COLORTERM", "truecolor"),
            ("TERM_PROGRAM", "remote-terminal-cloud"),
            ("TERM_PROGRAM_VERSION", "agent"),
        ])
    );
}

#[test]
fn shell_env_on_windows_enables_ansi() {
    let env = build_shell_env(&Vec::new(), &Vec::new(), PlatformId::Windows);
    assert_eq!(env.last().unwrap(), &("ConEmuANSI".to_string(), "ON".to_string()));
}

#[test]
fn shell_env_on_macos_takes_login_shell_variables() {
    let process = pairs(&[("PATH", "/usr/bin"), ("HOME", "/Users/a")]);
    let login = pairs(&[("PATH", "/opt/homebrew/bin:/usr/bin"), ("LANG", "en_US.UTF-8")]);
    let env = build_shell_env(&process, &login, PlatformId::Macos);
    assert_eq!(env[0], ("PATH".to_string(), "/opt/homebrew/bin:/usr/bin".to_string()));
    assert_eq!(env[1], ("HOME".to_string(), "/Users/a".to_string()));
    assert_eq!(env[2], ("LANG".to_string(), "en_US.UTF-8".to_string()));
    assert_eq!(env.len(), 7);
}

#[test]
fn merging_replaces_first_and_appends_new() {
    let mut env = pairs(&[("A", "1"), ("B", "2"), ("A", "3")]);
    merge_shell_env(&mut env, &pairs(&[("A", "x"), ("C", "y")]));
    assert_eq!(env, pairs(&[("A", "x"), ("B", "2"), ("A", "3"), ("C", "y")]));
}

#[test]
fn env_output_skips_shell_internals() {
    let output = "PATH=/usr/bin\nSHLVL=2\n_=/usr/bin/env\nNOEQUALS\n=empty\nA=b=c\r\nPWD=/x\n";
    let vars = parse_env_output(output);
    assert_eq!(vars, pairs(&[("PATH", "/usr/bin"), ("A", "b=c")]));
}

fn entry(name: &str) -> DirectoryEntry {
    DirectoryEntry { name: name.into(), path: format!("/r/{name}") }
}

#[test]
fn directory_entries_sort_by_lowercase_name_stably() {
    let items = vec![entry("b"), entry("A"), entry("a"), entry("C")];
    let sorted = sort_directory_entries(&items);
    let names: Vec<&str> = sorted.iter().map(|e| e.name.as_str()).collect();
    assert_eq!(names, vec!["A", "a", "b", "C"]);
}

#[test]
fn directory_listing_drops_parent_equal_to_itself() {
    let listing = directory_listing("/".into(), Some("/".into()), &vec![entry("usr")]);
    assert!(listing.ok);
    assert_eq!(listing.message_type, "directory-browse-result");
    assert_eq!(listing.parent_path, "");
    let listing = directory_listing("/usr".into(), Some("/".into()), &vec![]);
    assert_eq!(listing.parent_path, "/");
}

#[test]
fn windows_roots_list_present_drives() {
    let mut present = vec![false; 26];
    present[2] = true;
    present[3] = true;
    let listing = windows_root_listing(&present);
    let names: Vec<&str> = listing.items.iter().map(|e| e.name.as_str()).collect();
    assert_eq!(names, vec!["C:", "D:"]);
    assert_eq!(listing.items[0].path, "C:\\");
    assert_eq!(listing.current_path, "");
}

#[test]
fn sorted_listing_is_ordered_and_keeps_every_entry() {
    let items = vec![entry("b"), entry("A"), entry("c"), entry("a"), entry("B")];
    let sorted = sort_directory_entries(&items);
    let names: Vec<String> = sorted.iter().map(|e| e.name.clone()).collect();
    assert_eq!(names, vec!["A", "a", "b", "B", "c"]);
    for pair in sorted.windows(2) {
        assert!(pair[0].name.to_ascii_lowercase() <= pair[1].name.to_ascii_lowercase());
    }
    let mut before: Vec<String> = items.iter().map(|e| e.name.clone()).collect();
    let mut after = names.clone();
    before.sort();
    after.sort();
    assert_eq!(before, after);
}

#[test]
fn merged_variables_take_their_last_value() {
    let mut env = pairs(&[("PATH", "/bin"), ("HOME", "/h"), ("PATH", "/old")]);
    merge_shell_env(&mut env, &pairs(&[("PATH", "/a"), ("LANG", "C"), ("PATH", "/b")]));
    let first = |key: &str| env.iter().find(|(k, _)| k == key).map(|(_, v)| v.clone());
    assert_eq!(first("PATH"), Some("/b".to_string()));
    assert_eq!(first("LANG"), Some("C".to_string()));
    assert_eq!(first("HOME"), Some("/h".to_string()));
    assert_eq!(first("TERM"), None);
}
