use proto_awscli::install::{
    native_install, CommandRequest, InstallAction, InstallEvent, InstallOutcome, InstallRequest,
    InstallStage,
};
use proto_awscli::paths::{guest_path_join, windows_host_path, windows_join};
use proto_awscli::platform::{
    arch_name, check_supported_os_and_arch, os_name, Arch, Os, PluginFailure,
};
use proto_awscli::download::supported_permutations;
use proto_awscli::text::{contains_text, decimal_text, double_single_quotes, starts_with};
use proto_awscli::versions::{filter_release_tags, is_release_tag, is_v2_alias};
use proto_awscli::version_specs::resolve_version;

fn request(os: Os, arch: Arch) -> InstallRequest {
    InstallRequest {
        os,
        arch,
        version: "2.22.0".to_string(),
        install_dir: "/home/u/.proto/tools/aws/2.22.0".to_string(),
        temp_dir: "/home/u/.proto/temp/aws".to_string(),
    }
}

fn step(req: &InstallRequest, stage: &InstallStage, event: InstallEvent) -> (InstallStage, InstallAction) {
    native_install(req, stage, &event).expect("the event answers the stage")
}

fn exited(code: i32, stdout: &str, stderr: &str) -> InstallEvent {
    InstallEvent::CommandExited {
        exit_code: code,
        stdout: stdout.to_string(),
        stderr: stderr.to_string(),
    }
}

fn command(action: InstallAction) -> CommandRequest {
    match action {
        InstallAction::Run(c) => c,
        _ => panic!("expected a command"),
    }
}

fn outcome(action: InstallAction) -> InstallOutcome {
    match action {
        InstallAction::Finish(o) => o,
        _ => panic!("expected the end of the install"),
    }
}

#[test]
fn host_path_uses_backslashes() {
    assert_eq!(windows_host_path("C:/Users\\me/dir"), "C:\\Users\\me\\dir");
    assert_eq!(windows_host_path(""), "");
    assert_eq!(windows_host_path("plain"), "plain");
    let once = windows_host_path("a/b\\c/");
    assert_eq!(windows_host_path(&once), once);
}

#[test]
fn join_uses_single_backslash() {
    assert_eq!(windows_join("C:/temp/", "x.msi"), "C:\\temp\\x.msi");
    assert_eq!(windows_join("C:\\temp\\\\", "x.msi"), "C:\\temp\\x.msi");
    assert_eq!(windows_join("C:/temp", "x.msi"), "C:\\temp\\x.msi");
    assert_eq!(windows_join("", "x.msi"), "\\x.msi");
    assert_eq!(windows_join("C:/temp", "awscli-msi.log"), windows_join("C:/temp/", "awscli-msi.log"));
}

#[test]
fn guest_join_uses_forward_slashes() {
    assert_eq!(guest_path_join("/tmp/aws", "a.zip"), "/tmp/aws/a.zip");
    assert_eq!(guest_path_join("/tmp/aws/", "a.zip"), "/tmp/aws/a.zip");
    assert_eq!(guest_path_join("", "a.zip"), "a.zip");
    assert_eq!(guest_path_join("/tmp", "/abs.zip"), "/abs.zip");
    assert_eq!(guest_path_join("C:\\temp", "a.msi"), "C:\\temp/a.msi");
    for (dir, name) in [("/tmp/aws", "a.zip"), ("/tmp/aws/", "b"), ("", "c"), ("/x", "/y")] {
        let std_join = std::path::Path::new(dir).join(name);
        assert_eq!(guest_path_join(dir, name), std_join.to_string_lossy());
    }
}

#[test]
fn text_helpers() {
    assert!(starts_with("2.22.0", "2."));
    assert!(!starts_with("2", "2."));
    assert!(contains_text("2.0.0dev0", "dev"));
    assert!(!contains_text("2.0.0", "rc"));
    assert!(contains_text("abc", ""));
    assert_eq!(decimal_text(0), "0");
    assert_eq!(decimal_text(1603), "1603");
    assert_eq!(decimal_text(-1), "-1");
    assert_eq!(decimal_text(i32::MIN), i32::MIN.to_string());
    assert_eq!(decimal_text(i32::MAX), i32::MAX.to_string());
    assert_eq!(double_single_quotes("C:\\it's\\a'b"), "C:\\it''s\\a''b");
    assert_eq!(double_single_quotes("none"), "none");
}

#[test]
fn release_tag_rules() {
    assert!(is_release_tag("2.22.0"));
    assert!(is_release_tag("2."));
    assert!(!is_release_tag("1.36.0"));
    assert!(!is_release_tag("2.0.0dev0"));
    assert!(!is_release_tag("2.1.0rc1"));
    assert!(!is_release_tag("2.3.0beta"));
    assert!(!is_release_tag("2.5.0.alpha"));
    assert!(!is_release_tag("v2.4.0"));
    assert!(!is_release_tag("2.4.0-1"));
    let tags: Vec<String> = ["2.1.0", "1.0.0", "2.2.0rc1", "2.0.5", "2.1.0"]
        .iter()
        .map(|s| s.to_string())
        .collect();
    let kept = filter_release_tags(tags);
    assert_eq!(kept, vec!["2.1.0", "2.0.5", "2.1.0"]);
    assert_eq!(filter_release_tags(kept.clone()), kept);
}

#[test]
fn v2_alias_rules() {
    assert!(is_v2_alias("v2"));
    assert!(is_v2_alias("2"));
    assert!(!is_v2_alias("v3"));
    assert!(!is_v2_alias("^2"));
    assert!(!is_v2_alias("latest"));
    let candidate = resolve_version("v2").unwrap().expect("a candidate");
    assert_eq!(candidate.to_string(), ">=2.0.0");
    assert!(resolve_version("2").unwrap().is_some());
    assert!(resolve_version("latest").unwrap().is_none());
}

#[test]
fn os_and_arch_names() {
    assert_eq!(os_name(Os::MacOS), "macos");
    assert_eq!(os_name(Os::IOS), "ios");
    assert_eq!(arch_name(Arch::X64), "x64");
    assert_eq!(arch_name(Arch::LongArm64), "longarm64");
}

#[test]
fn supported_targets() {
    let perms = supported_permutations();
    assert!(check_supported_os_and_arch("AWS CLI", Os::Linux, Arch::Arm64, &perms).is_ok());
    assert!(check_supported_os_and_arch("AWS CLI", Os::MacOS, Arch::X64, &perms).is_ok());
    assert!(check_supported_os_and_arch("AWS CLI", Os::Windows, Arch::X64, &perms).is_ok());
    match check_supported_os_and_arch("tool", Os::Android, Arch::Arm64, &perms) {
        Err(PluginFailure::UnsupportedOS { tool, os }) => {
            assert_eq!(tool, "tool");
            assert_eq!(os, "android");
        }
        _ => panic!("expected an OS refusal"),
    }
    // The last entry for an operating system wins, as in a map.
    let overridden = vec![(Os::Linux, vec![Arch::X64]), (Os::Linux, vec![Arch::Arm])];
    assert!(check_supported_os_and_arch("t", Os::Linux, Arch::Arm, &overridden).is_ok());
    assert!(check_supported_os_and_arch("t", Os::Linux, Arch::X64, &overridden).is_err());
}

#[test]
fn linux_install_runs_unzip_then_installer() {
    let req = request(Os::Linux, Arch::X64);
    let (stage, action) = step(&req, &InstallStage::Start, InstallEvent::Begin);
    match action {
        InstallAction::Download { url, file_name } => {
            assert_eq!(url, "https://awscli.amazonaws.com/awscli-exe-linux-x86_64-2.22.0.zip");
            assert_eq!(file_name, "awscli-exe-linux-x86_64-2.22.0.zip");
        }
        _ => panic!("expected a download"),
    }
    let zip = "/home/u/.proto/temp/aws/awscli-exe-linux-x86_64-2.22.0.zip";
    let (stage, action) = step(&req, &stage, InstallEvent::Downloaded);
    let unzip = command(action);
    assert_eq!(unzip.command, "unzip");
    assert_eq!(unzip.args, vec!["-o", zip, "-d", "/home/u/.proto/temp/aws"]);
    assert!(!unzip.stream && !unzip.set_executable && !unzip.failure_tolerated);
    let (stage, action) = step(&req, &stage, exited(0, "", ""));
    let installer = command(action);
    assert_eq!(installer.command, "/home/u/.proto/temp/aws/aws/install");
    assert_eq!(
        installer.args,
        vec![
            "--install-dir",
            "/home/u/.proto/tools/aws/2.22.0",
            "--bin-dir",
            "/home/u/.proto/tools/aws/2.22.0/bin",
            "--update",
        ]
    );
    assert!(installer.stream && installer.set_executable && !installer.failure_tolerated);
    let (stage, action) = step(&req, &stage, exited(0, "", ""));
    let done = outcome(action);
    assert!(done.installed);
    assert!(done.error.is_none());
    assert!(matches!(stage, InstallStage::Finished));
    assert!(native_install(&req, &stage, &InstallEvent::Begin).is_none());
}

#[test]
fn linux_install_reports_unzip_failure() {
    let req = request(Os::Linux, Arch::Arm64);
    let (stage, _) = step(&req, &InstallStage::Start, InstallEvent::Begin);
    let (stage, _) = step(&req, &stage, InstallEvent::Downloaded);
    let (stage, action) = step(&req, &stage, exited(9, "", "bad zip"));
    let done = outcome(action);
    assert!(!done.installed);
    assert_eq!(done.error.as_deref(), Some("Failed to unzip AWS CLI archive: bad zip"));
    assert!(matches!(stage, InstallStage::Finished));
}

#[test]
fn linux_install_reports_installer_failure() {
    let req = request(Os::Linux, Arch::X64);
    let (stage, _) = step(&req, &InstallStage::Start, InstallEvent::Begin);
    let (stage, _) = step(&req, &stage, InstallEvent::Downloaded);
    let (stage, _) = step(&req, &stage, exited(0, "", ""));
    let (_, action) = step(&req, &stage, exited(1, "", "denied"));
    let done = outcome(action);
    assert!(!done.installed);
    assert_eq!(done.error.as_deref(), Some("AWS CLI installer failed: denied"));
}

#[test]
fn macos_install_expands_then_copies() {
    let req = request(Os::MacOS, Arch::Arm64);
    let (stage, action) = step(&req, &InstallStage::Start, InstallEvent::Begin);
    match action {
        InstallAction::Download { url, file_name } => {
            assert_eq!(url, "https://awscli.amazonaws.com/AWSCLIV2-2.22.0.pkg");
            assert_eq!(file_name, "AWSCLIV2-2.22.0.pkg");
        }
        _ => panic!("expected a download"),
    }
    let pkg = "/home/u/.proto/temp/aws/AWSCLIV2-2.22.0.pkg";
    let (stage, action) = step(&req, &stage, InstallEvent::Downloaded);
    let expand = command(action);
    assert_eq!(expand.command, "pkgutil");
    assert_eq!(
        expand.args,
        vec!["--expand-full", pkg, "/home/u/.proto/temp/aws/aws-cli-expanded"]
    );
    let (stage, action) = step(&req, &stage, exited(0, "", ""));
    let copy = command(action);
    assert_eq!(copy.command, "cp");
    assert_eq!(
        copy.args,
        vec![
            "-R",
            "/home/u/.proto/temp/aws/aws-cli-expanded/aws-cli.pkg/Payload/aws-cli/.",
            "/home/u/.proto/tools/aws/2.22.0",
        ]
    );
    let (_, action) = step(&req, &stage, exited(0, "", ""));
    assert!(outcome(action).installed);
}

#[test]
fn macos_install_reports_failures() {
    let req = request(Os::MacOS, Arch::X64);
    let (stage, _) = step(&req, &InstallStage::Start, InstallEvent::Begin);
    let (stage, _) = step(&req, &stage, InstallEvent::Downloaded);
    let (_, action) = step(&req, &stage, exited(2, "", "no space"));
    assert_eq!(
        outcome(action).error.as_deref(),
        Some("Failed to expand AWS CLI package: no space")
    );
    let (stage, _) = step(&req, &stage, exited(0, "", ""));
    let (_, action) = step(&req, &stage, exited(1, "", "read-only"));
    assert_eq!(outcome(action).error.as_deref(), Some("Failed to copy AWS CLI files: read-only"));
}

#[test]
fn windows_install_extracts_msi() {
    let req = InstallRequest {
        os: Os::Windows,
        arch: Arch::X64,
        version: "2.22.0".to_string(),
        install_dir: "C:/Users/me/.proto/tools/aws/2.22.0".to_string(),
        temp_dir: "C:\\Users/me/.proto/temp/aws/".to_string(),
    };
    let (stage, action) = step(&req, &InstallStage::Start, InstallEvent::Begin);
    match action {
        InstallAction::Download { url, file_name } => {
            assert_eq!(url, "https://awscli.amazonaws.com/AWSCLIV2-2.22.0.msi");
            assert_eq!(file_name, "AWSCLIV2-2.22.0.msi");
        }
        _ => panic!("expected a download"),
    }
    let (stage, action) =
        step(&req, &stage, InstallEvent::Downloaded);
    let msiexec = command(action);
    assert_eq!(msiexec.command, "msiexec");
    assert_eq!(
        msiexec.args,
        vec![
            "/a",
            "C:\\Users\\me\\.proto\\temp\\aws\\AWSCLIV2-2.22.0.msi",
            "/qn",
            "/norestart",
            "TARGETDIR=C:\\Users\\me\\.proto\\tools\\aws\\2.22.0",
            "/L*v",
            "C:\\Users\\me\\.proto\\temp\\aws\\awscli-msi.log",
        ]
    );
    let (_, action) = step(&req, &stage, exited(0, "", ""));
    assert!(outcome(action).installed);
}

#[test]
fn windows_install_reads_log_on_failure() {
    let req = InstallRequest {
        os: Os::Windows,
        arch: Arch::X64,
        version: "2.22.0".to_string(),
        install_dir: "C:/tools".to_string(),
        temp_dir: "C:/it's".to_string(),
    };
    let (stage, _) = step(&req, &InstallStage::Start, InstallEvent::Begin);
    let (stage, _) = step(&req, &stage, InstallEvent::Downloaded);
    let (stage, action) = step(&req, &stage, exited(1603, "out", "err"));
    let tail = command(action);
    assert_eq!(tail.command, "powershell");
    assert!(tail.failure_tolerated && !tail.stream);
    assert_eq!(
        tail.args,
        vec![
            "-NoProfile",
            "-Command",
            "if (Test-Path -LiteralPath 'C:\\it''s\\awscli-msi.log') { Get-Content -LiteralPath 'C:\\it''s\\awscli-msi.log' -Tail 40 | Out-String }",
        ]
    );
    match native_install(&req, &stage, &exited(0, "last lines", "")) {
        Some((_, action)) => {
            let done = outcome(action);
            assert!(!done.installed);
            assert_eq!(
                done.error.as_deref(),
                Some("AWS CLI MSI extraction failed (exit 1603): err\nout\nlast lines")
            );
        }
        None => panic!("expected the end of the install"),
    }
    let (_, action) = step(&req, &stage, InstallEvent::CommandFailed);
    assert_eq!(
        outcome(action).error.as_deref(),
        Some("AWS CLI MSI extraction failed (exit 1603): err\nout\n")
    );
}

#[test]
fn install_refuses_other_os() {
    let req = request(Os::Solaris, Arch::Sparc64);
    let (stage, action) = step(&req, &InstallStage::Start, InstallEvent::Begin);
    let done = outcome(action);
    assert!(!done.installed);
    assert_eq!(done.error.as_deref(), Some("Unsupported operating system: solaris"));
    assert!(matches!(stage, InstallStage::Finished));
}

#[test]
fn install_ignores_events_out_of_turn() {
    let req = request(Os::Linux, Arch::X64);
    assert!(native_install(&req, &InstallStage::Start, &exited(0, "", "")).is_none());
    assert!(native_install(&req, &InstallStage::Unzipping, &InstallEvent::CommandFailed).is_none());
    assert!(native_install(
        &req,
        &InstallStage::Downloading,
        &InstallEvent::Begin
    )
    .is_none());
}
