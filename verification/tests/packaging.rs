use rtc_agent::packaging::{
    archive_file_name, artifact_readme, check_required_paths, nsis_executable_candidates,
    nsis_search_patterns, windows_required_inputs, NsisSearchEnv, packaging_command_name,
    PackagingCommand, binary_file_name, dedupe_paths, installer_version,
    insert_detail, msi_stage_readme, native_installer_file_name, needs_explicit_target,
    normalize_host_arch, normalize_target_arch, normalize_target_platform, nsis_stage_readme,
    packaging_names, read_version, rust_target_triple, slash_join, start_command, success,
    temp_extension, wix_build_args, wix_extension_name, wix_version_from_output,
    winsw_download_url, xtask_command_line,
};

#[test]
fn platform_and_arch_names_are_normalised() {
    assert_eq!(normalize_target_platform("windows", "linux"), "win32");
    assert_eq!(normalize_target_platform("darwin", "linux"), "darwin");
    assert_eq!(normalize_target_platform("solaris", "linux"), "linux");
    assert_eq!(normalize_target_platform("macos", "linux"), "linux");
    assert_eq!(normalize_target_platform("", "macos"), "darwin");
    assert_eq!(normalize_target_platform("", "windows"), "windows");
    assert_eq!(normalize_target_platform("freebsd", "windows"), "windows");
    assert_eq!(normalize_target_arch("amd64"), "x64");
    assert_eq!(normalize_target_arch("aarch64"), "arm64");
    assert_eq!(normalize_target_arch("riscv64"), "riscv64");
    assert_eq!(normalize_host_arch("x86_64"), "x64");
}

#[test]
fn names_follow_the_release_layout() {
    let names = packaging_names("0.3.1", &Some(" linux ".into()), &Some("x64".into()), "windows", "aarch64");
    assert_eq!(names.target_platform, "linux");
    assert_eq!(names.target_arch, "x64");
    assert_eq!(names.os_name, "linux");
    assert_eq!(names.arch_name, "x86_64");
    assert_eq!(names.bundle_dir_name, "remote-terminal-cloud-agent-0.3.1");
    assert_eq!(names.platform_dir_name, "linux-x64");
    assert_eq!(names.archive_base_name, "remote-terminal-cloud-agent-0.3.1-linux-x64");
    let host = packaging_names("1.0.0", &None, &Some("  ".into()), "windows", "x86_64");
    assert_eq!(host.target_platform, "win32");
    assert_eq!(host.os_name, "windows");
    assert_eq!(host.platform_dir_name, "win32-x64");

    let mac = packaging_names("1.2.3", &None, &None, "macos", "aarch64");
    assert_eq!(mac.target_platform, "darwin");
    assert_eq!(mac.target_arch, "arm64");
    assert_eq!(mac.platform_dir_name, "darwin-arm64");
    assert_eq!(mac.archive_base_name, "remote-terminal-cloud-agent-1.2.3-darwin-arm64");
}

#[test]
fn target_triples() {
    assert_eq!(rust_target_triple("darwin", "arm64"), Ok("aarch64-apple-darwin".to_string()));
    assert_eq!(rust_target_triple("win32", "x64"), Ok("x86_64-pc-windows-msvc".to_string()));
    assert_eq!(
        rust_target_triple("macos", "x64"),
        Err("unsupported target combination for Rust packaging: macos/x64".to_string())
    );
    assert!(needs_explicit_target("linux", "arm64", "linux", "x86_64"));
    assert!(!needs_explicit_target("linux", "x64", "linux", "x86_64"));
}

#[test]
fn artifact_file_names() {
    assert_eq!(binary_file_name("win32", "rtc-agent"), "rtc-agent.exe");
    assert_eq!(binary_file_name("linux", "rtc-agent"), "rtc-agent");
    assert_eq!(archive_file_name("win32", "base"), "base.zip");
    assert_eq!(archive_file_name("darwin", "base"), "base.tar.gz");
    assert_eq!(native_installer_file_name("linux", "base"), Some("base.deb".to_string()));
    assert_eq!(native_installer_file_name("darwin", "base"), Some("base.pkg".to_string()));
    assert_eq!(native_installer_file_name("win32", "base"), None);
    assert_eq!(start_command("win32"), ".\\bin\\rtc-agent.exe");
    assert_eq!(start_command("linux"), "./bin/rtc-agent");
    assert_eq!(temp_extension(Some("exe")), "exe.tmp");
    assert_eq!(temp_extension(Some("")), "tmp");
    assert_eq!(temp_extension(None), "tmp");
    assert_eq!(slash_join(&vec!["bin".into(), "rtc-agent".into()]), "bin/rtc-agent");
}

#[test]
fn xtask_command_line_quotes_paths_with_spaces() {
    let line = xtask_command_line(
        "windows-msi-build",
        &vec![
            ("--build-root".into(), Some("C:\\My Stage".into())),
            ("--output-dir".into(), Some("out".into())),
            ("--force".into(), None),
        ],
    );
    assert_eq!(
        line,
        "cargo xtask windows-msi-build --build-root \"C:\\My Stage\" --output-dir out --force"
    );
}

#[test]
fn staging_readmes() {
    let readme = nsis_stage_readme("cargo xtask windows-nsis-build", false);
    assert!(readme.starts_with("Remote Terminal Cloud Agent - Windows NSIS build root\n\n"));
    assert!(readme.contains("\ncargo xtask windows-nsis-build\n"));
    assert!(readme.ends_with("- artifacts\\windows\\out"));
    let with_service = msi_stage_readme("x", true);
    assert!(with_service.ends_with(
        "- service\\RemoteTerminalCloudAgentService.exe\n- service\\RemoteTerminalCloudAgentService.xml"
    ));
    let artifact = artifact_readme("1.2.3", "linux", "x64", "https://api.qysyw.cn");
    assert!(artifact.contains("Version: 1.2.3\nPlatform: linux\nArchitecture: x64\nServer base URL: https://api.qysyw.cn\n"));
}

#[test]
fn versions_for_packaging() {
    assert_eq!(read_version(" 0.3.1\n"), Ok("0.3.1".to_string()));
    assert_eq!(read_version("  "), Err("VERSION is empty".to_string()));
    assert_eq!(installer_version(&Some(" ".into()), &Some(" 2.0.0 ".into()), "1.0.0"), "2.0.0");
    assert_eq!(installer_version(&Some("3.0.0".into()), &None, "1.0.0"), "3.0.0");
    assert_eq!(installer_version(&None, &None, "1.0.0"), "1.0.0");
    assert_eq!(
        winsw_download_url(" "),
        "https://github.com/winsw/winsw/releases/download/v2.12.0/WinSW-x64.exe"
    );
}

#[test]
fn wix_version_and_arguments() {
    assert_eq!(
        wix_version_from_output("  wix version 7.0.1+abc\n"),
        (Some("7.0.1+abc".to_string()), Some(7))
    );
    assert_eq!(wix_version_from_output("no digits here"), (None, None));
    assert_eq!(wix_version_from_output("v 5x.1"), (Some("5x.1".to_string()), None));
    assert_eq!(wix_extension_name(&Some("7.0.1".into())), "WixToolset.UI.wixext/7.0.1");
    let args = wix_build_args(true, Some(7), "C:\\stage", "C:\\stage\\a.wxs", "C:\\out\\a.msi");
    assert_eq!(args[0..3], ["build", "--acceptEula", "yes"]);
    assert_eq!(args[6], "AgentBuildRoot=C:\\stage");
    let args = wix_build_args(true, Some(6), "r", "w", "m");
    assert_eq!(args, vec!["build", "-ext", "WixToolset.UI.wixext", "-d", "AgentBuildRoot=r", "w", "-out", "m"]);
}

#[test]
fn deduped_paths_are_sorted_and_unique() {
    let paths = vec!["b".to_string(), "a".to_string(), "b".to_string(), "C".to_string()];
    assert_eq!(dedupe_paths(paths), vec!["C", "a", "b"]);
}

#[test]
fn details_behave_like_a_sorted_map() {
    let mut details = Vec::new();
    insert_detail(&mut details, "stageRoot".into(), "s".into());
    insert_detail(&mut details, "outputDir".into(), "o".into());
    insert_detail(&mut details, "stageRoot".into(), "t".into());
    assert_eq!(details, vec![
        ("outputDir".to_string(), "o".to_string()),
        ("stageRoot".to_string(), "t".to_string())
    ]);
    let result = success("windows-nsis-stage", "Windows NSIS staging prepared.", details);
    assert!(result.ok);
    assert_eq!(result.details.len(), 2);
}

#[test]
fn nsis_candidates_follow_the_environment() {
    let env = NsisSearchEnv {
        program_files: Some("C:\\Program Files".into()),
        program_files_x86: Some("   ".into()),
        local_app_data: None,
        chocolatey_install: Some(" C:\\choco ".into()),
        user_profile: Some("C:\\Users\\me".into()),
        scoop: None,
        nsis_home: Some("D:\\nsis".into()),
        nsis_root: None,
    };
    let candidates = nsis_executable_candidates(&env);
    let rendered: Vec<String> =
        candidates.iter().map(|(base, parts)| format!("{}|{}", base, parts.join("/"))).collect();
    assert_eq!(
        rendered,
        vec![
            "C:\\Program Files|NSIS/makensis.exe",
            "C:\\Program Files|Nullsoft Scriptable Install System/makensis.exe",
            "C:\\choco|bin/makensis.exe",
            "C:\\choco|lib/nsis/tools/makensis.exe",
            "C:\\choco|lib/nsis.portable/tools/makensis.exe",
            "C:\\Users\\me\\scoop|shims/makensis.exe",
            "C:\\Users\\me\\scoop|apps/nsis/current/makensis.exe",
            "D:\\nsis|makensis.exe",
        ]
    );
    let patterns = nsis_search_patterns(&env);
    assert_eq!(
        patterns,
        vec![
            "   \\*NSIS*\\makensis.exe",
            "C:\\Program Files\\*NSIS*\\makensis.exe",
            " C:\\choco \\lib\\nsis*\\tools\\makensis.exe",
            " C:\\choco \\lib\\nsis*\\tools\\*\\makensis.exe",
            "C:\\Users\\me\\scoop\\apps\\nsis\\*\\makensis.exe",
        ]
    );
}

#[test]
fn nsis_search_is_empty_without_environment() {
    let env = NsisSearchEnv::default();
    assert!(nsis_executable_candidates(&env).is_empty());
    assert!(nsis_search_patterns(&env).is_empty());
}

#[test]
fn windows_inputs_depend_on_root_kind_and_tools() {
    let bundle = windows_required_inputs(true, true, true);
    assert_eq!(bundle.len(), 8);
    assert_eq!(bundle[5], vec!["packaging", "windows", "RemoteTerminalCloudAgentService.xml"]);
    assert_eq!(bundle[7], vec!["packaging", "windows", "wix", "RemoteTerminalCloudAgent.wxs"]);
    let build = windows_required_inputs(false, false, true);
    assert_eq!(build.len(), 6);
    assert_eq!(build[0], vec!["bin", "rtc-agent.exe"]);
    assert_eq!(build[5], vec!["packaging", "windows", "wix", "RemoteTerminalCloudAgent.wxs"]);
}

#[test]
fn first_missing_input_is_reported() {
    let paths = vec![("a".to_string(), true), ("b".to_string(), false), ("c".to_string(), false)];
    assert_eq!(check_required_paths("build input", &paths), Err("required build input missing: b".to_string()));
    assert_eq!(check_required_paths("bundle input", &vec![("a".to_string(), true)]), Ok(()));
}

#[test]
fn macos_host_context_names_darwin_artifacts() {
    let ctx = rtc_agent::packaging::resolve_packaging_context("/repo", "0.4.0\n", &None, &None, "macos", "aarch64")
        .unwrap();
    assert_eq!(ctx.target_platform, "darwin");
    assert_eq!(ctx.target_arch, "arm64");
    assert_eq!(ctx.os_name, "darwin");
    assert_eq!(ctx.arch_name, "arm64");
    assert_eq!(ctx.platform_out_root, vec!["/repo", "release", "artifacts", "darwin-arm64"]);
    assert_eq!(
        ctx.stage_root,
        vec!["/repo", "release", "artifacts", "darwin-arm64", "remote-terminal-cloud-agent-0.4.0"]
    );
    assert_eq!(ctx.bundle_root, vec!["/repo", "release", "remote-terminal-cloud-agent-0.4.0"]);
    assert_eq!(ctx.release_root, vec!["/repo", "release"]);
    assert_eq!(ctx.archive_base_name, "remote-terminal-cloud-agent-0.4.0-darwin-arm64");
}

#[test]
fn context_needs_a_version() {
    let err = rtc_agent::packaging::resolve_packaging_context("/repo", " \n", &None, &None, "linux", "x86_64")
        .unwrap_err();
    assert_eq!(err, "VERSION is empty");
}

#[test]
fn windows_context_uses_win32_names() {
    let ctx = rtc_agent::packaging::resolve_packaging_context(
        "C:/src",
        "1.0.0",
        &Some("windows".into()),
        &Some("amd64".into()),
        "linux",
        "x86_64",
    )
    .unwrap();
    assert_eq!(ctx.target_platform, "win32");
    assert_eq!(ctx.os_name, "windows");
    assert_eq!(ctx.target_arch, "x64");
    assert_eq!(ctx.arch_name, "x86_64");
    assert_eq!(ctx.archive_base_name, "remote-terminal-cloud-agent-1.0.0-win32-x64");
}

#[test]
fn command_names_match_results() {
    assert_eq!(packaging_command_name(&PackagingCommand::Artifact), "artifact");
    assert_eq!(
        packaging_command_name(&PackagingCommand::WindowsMsiBuild {
            build_root: "b".into(),
            output_dir: "o".into(),
            wix_exe: None,
            accept_eula: true,
        }),
        "windows-msi-build"
    );
}
