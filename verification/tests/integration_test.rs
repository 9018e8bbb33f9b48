use proto_awscli::download::{download_prebuilt, PrebuiltDownload};
use proto_awscli::executables::{locate_executables, native_uninstall};
use proto_awscli::platform::{Arch, Os, PluginFailure};
use proto_awscli::version_specs::{load_versions, register_tool, resolve_version, ToolKind};
use proto_pdk::UnresolvedVersionSpec;

fn strings(values: &[&str]) -> Vec<String> {
    values.iter().map(|v| v.to_string()).collect()
}

fn sample_tags() -> Vec<String> {
    strings(&[
        "1.36.0", "2.0.0", "2.0.0dev0", "2.1.0rc1", "2.15.30", "2.22.0", "2.22.1", "2.3.0beta",
        "v2.4.0", "2.5.0.alpha",
    ])
}

fn prebuilt(os: Os, arch: Arch) -> PrebuiltDownload {
    match download_prebuilt(os, arch, "2.22.0", false) {
        Ok(download) => download,
        Err(error) => panic!("unexpected refusal: {:?}", error),
    }
}

#[test]
fn registers_tool_metadata() {
    let output = register_tool("0.1.0");
    assert_eq!(output.name, "AWS CLI");
    assert_eq!(output.kind, ToolKind::CommandLine);
    assert_eq!(output.minimum_proto_version, (0, 61, 0));
    assert!(output.plugin_version.is_some());
    assert_eq!(output.self_upgrade_commands, vec!["upgrade"]);
}

#[test]
fn loads_versions_from_git_tags() {
    let output = load_versions(sample_tags()).unwrap();

    assert!(!output.versions.is_empty());

    // All versions should be v2
    for version in &output.versions {
        let v = version.to_string();
        assert!(
            v.starts_with("2."),
            "Expected version to start with '2.', got: {}",
            v
        );
    }
}

#[test]
fn sets_latest_alias() {
    let output = load_versions(sample_tags()).unwrap();

    assert!(output.latest.is_some());
    assert!(output.aliases.contains_key("latest"));
    assert_eq!(output.aliases.get("latest"), output.latest.as_ref());
}

#[test]
fn resolves_v2_alias() {
    // The alias reaches the plugin serialized as text and parsed back.
    let initial = UnresolvedVersionSpec::Alias("v2".into());
    let received = UnresolvedVersionSpec::parse(String::from(initial)).unwrap();

    let output = resolve_version(&received.to_string()).unwrap();

    assert!(output.is_none());
}

#[test]
fn downloads_linux_x64() {
    let output = prebuilt(Os::Linux, Arch::X64);
    assert_eq!(
        output.download_url,
        "https://awscli.amazonaws.com/awscli-exe-linux-x86_64-2.22.0.zip"
    );
}

#[test]
fn downloads_linux_arm64() {
    let output = prebuilt(Os::Linux, Arch::Arm64);
    assert_eq!(
        output.download_url,
        "https://awscli.amazonaws.com/awscli-exe-linux-aarch64-2.22.0.zip"
    );
}

#[test]
fn downloads_macos() {
    let output = prebuilt(Os::MacOS, Arch::Arm64);
    assert_eq!(
        output.download_url,
        "https://awscli.amazonaws.com/AWSCLIV2-2.22.0.pkg"
    );
}

#[test]
fn downloads_windows() {
    let output = prebuilt(Os::Windows, Arch::X64);
    assert_eq!(
        output.download_url,
        "https://awscli.amazonaws.com/AWSCLIV2-2.22.0.msi"
    );
}

#[test]
fn locates_linux_executables() {
    let output = locate_executables(Os::Linux);

    let aws_exe = output.iter().find(|e| e.name == "aws").unwrap();
    assert_eq!(aws_exe.exe_path, "bin/aws");
    assert!(aws_exe.primary);

    let completer_exe = output.iter().find(|e| e.name == "aws_completer").unwrap();
    assert_eq!(completer_exe.exe_path, "bin/aws_completer");
    assert!(!completer_exe.primary);
}

#[test]
fn locates_macos_executables() {
    let output = locate_executables(Os::MacOS);

    let aws_exe = output.iter().find(|e| e.name == "aws").unwrap();
    assert_eq!(aws_exe.exe_path, "aws");
    assert!(aws_exe.primary);
}

#[test]
fn locates_windows_executables() {
    let output = locate_executables(Os::Windows);

    let aws_exe = output.iter().find(|e| e.name == "aws").unwrap();
    assert_eq!(aws_exe.exe_path, "Amazon/AWSCLIV2/aws.exe");
    assert!(aws_exe.primary);
}

#[test]
fn download_names_match_urls() {
    let linux = prebuilt(Os::Linux, Arch::Arm64);
    assert_eq!(
        linux.download_name.as_deref(),
        Some("awscli-exe-linux-aarch64-2.22.0.zip")
    );
    let mac = prebuilt(Os::MacOS, Arch::X64);
    assert_eq!(mac.download_name.as_deref(), Some("AWSCLIV2-2.22.0.pkg"));
    let windows = prebuilt(Os::Windows, Arch::X64);
    assert_eq!(windows.download_name.as_deref(), Some("AWSCLIV2-2.22.0.msi"));
}

#[test]
fn refuses_canary_downloads() {
    match download_prebuilt(Os::Linux, Arch::X64, "canary", true) {
        Err(PluginFailure::UnsupportedCanary { tool }) => assert_eq!(tool, "AWS CLI"),
        other => panic!("expected a canary refusal, got {:?}", other.err()),
    }
}

#[test]
fn refuses_unsupported_architecture() {
    match download_prebuilt(Os::Windows, Arch::Arm64, "2.22.0", false) {
        Err(PluginFailure::UnsupportedTarget { tool, arch, os }) => {
            assert_eq!(tool, "AWS CLI");
            assert_eq!(arch, "arm64");
            assert_eq!(os, "windows");
        }
        other => panic!("expected a target refusal, got {:?}", other.err()),
    }
    match download_prebuilt(Os::Linux, Arch::X86, "2.22.0", false) {
        Err(PluginFailure::UnsupportedTarget { arch, os, .. }) => {
            assert_eq!(arch, "x86");
            assert_eq!(os, "linux");
        }
        other => panic!("expected a target refusal, got {:?}", other.err()),
    }
}

#[test]
fn refuses_unsupported_os() {
    match download_prebuilt(Os::FreeBSD, Arch::X64, "2.22.0", false) {
        Err(PluginFailure::UnsupportedOS { tool, os }) => {
            assert_eq!(tool, "AWS CLI");
            assert_eq!(os, "freebsd");
        }
        other => panic!("expected an OS refusal, got {:?}", other.err()),
    }
}

#[test]
fn uninstall_always_succeeds() {
    let outcome = native_uninstall();
    assert!(outcome.uninstalled);
    assert!(outcome.error.is_none());
}

#[test]
fn loads_exactly_the_release_tags() {
    let output = load_versions(strings(&[
        "1.29.0", "2.0.0", "2.22.0", "2.22.1rc1", "2.0.0dev0", "v2.1.0", "2.15.0",
    ]))
    .unwrap();
    let versions: Vec<String> = output.versions.iter().map(|v| v.to_string()).collect();
    assert_eq!(versions, vec!["2.0.0", "2.22.0", "2.15.0"]);
    assert_eq!(output.latest.as_ref().map(|l| l.to_string()), Some("2.22.0".to_string()));
    assert_eq!(output.aliases.get("latest"), output.latest.as_ref());

    let with_noise = load_versions(strings(&["2.0.0", "2.5.0beta1", "2.22.0", "1.0.0", "2.15.0"]))
        .unwrap();
    let noisy: Vec<String> = with_noise.versions.iter().map(|v| v.to_string()).collect();
    assert_eq!(noisy, versions);
}

#[test]
fn registers_unparsable_plugin_version_as_none() {
    assert!(register_tool("not a version!").plugin_version.is_none());
}

#[test]
fn resolves_two_to_requirement() {
    let candidate = resolve_version("2").unwrap().expect("a candidate");
    assert_eq!(candidate, UnresolvedVersionSpec::parse(">=2.0.0").unwrap());
}

#[test]
fn rejected_tags_leave_the_result_unchanged() {
    for kept in [&["2.", "2.1.0"][..], &["2.1.0", "2.0.0"][..], &["2..1"][..]] {
        let plain = load_versions(strings(kept));
        let mut noisy_tags = vec!["1.29.0".to_string(), "v2.1.0".to_string()];
        for tag in kept {
            noisy_tags.push(tag.to_string());
            noisy_tags.push("2.1.0rc1".to_string());
        }
        let noisy = load_versions(noisy_tags);
        assert_eq!(format!("{:?}", plain), format!("{:?}", noisy));
    }
}
