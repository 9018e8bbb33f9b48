//! Where the AWS CLI release for a host is downloaded from.
use vstd::prelude::*;
use vstd::string::*;
use crate::platform::{
    Arch, Os, PluginFailure, arches_for, check_supported_os_and_arch, host_supported,
    target_refusal,
};

verus! {

/// Human readable name of the tool.
pub const TOOL_NAME: &'static str = "AWS CLI";

/// The architectures of each operating system that the AWS CLI has releases for.
pub open spec fn awscli_arches(os: Os) -> Option<Seq<Arch>> {
    match os {
        Os::Linux => Some(seq![Arch::X64, Arch::Arm64]),
        Os::MacOS => Some(seq![Arch::X64, Arch::Arm64]),
        Os::Windows => Some(seq![Arch::X64]),
        _ => None,
    }
}

/// Returns the host permutations the AWS CLI has releases for.
pub fn supported_permutations() -> (res: Vec<(Os, Vec<Arch>)>)
    ensures
        forall|os: Os| #[trigger] arches_for(res@, os) == awscli_arches(os),
{
    let res = vec![
        (Os::Linux, vec![Arch::X64, Arch::Arm64]),
        (Os::MacOS, vec![Arch::X64, Arch::Arm64]),
        (Os::Windows, vec![Arch::X64]),
    ];
    proof {
        assert forall|os: Os| #[trigger] arches_for(res@, os) == awscli_arches(os) by {
            reveal_with_fuel(arches_for, 4);
            assert(res@[0].1@ =~= seq![Arch::X64, Arch::Arm64]);
            assert(res@[1].1@ =~= seq![Arch::X64, Arch::Arm64]);
            assert(res@[2].1@ =~= seq![Arch::X64]);
            assert(res@.drop_last().drop_last().drop_last() =~= Seq::<(Os, Vec<Arch>)>::empty());
        }
    }
    res
}

/// The architecture part of a Linux release name.
pub open spec fn linux_arch_tag(arch: Arch) -> Seq<char> {
    if arch == Arch::Arm64 {
        "aarch64"@
    } else {
        "x86_64"@
    }
}

/// The file name of the release of `version` for a host, on the operating
/// systems that have releases.
pub open spec fn spec_release_file_name(os: Os, arch: Arch, version: Seq<char>) -> Option<Seq<char>> {
    match os {
        Os::Linux => Some("awscli-exe-linux-"@ + linux_arch_tag(arch) + "-"@ + version + ".zip"@),
        Os::MacOS => Some("AWSCLIV2-"@ + version + ".pkg"@),
        Os::Windows => Some("AWSCLIV2-"@ + version + ".msi"@),
        _ => None,
    }
}

/// Where the release files are published.
pub open spec fn release_base_url() -> Seq<char> {
    "https://awscli.amazonaws.com/"@
}

/// Returns the file name of the release of `version` for a host, on the
/// operating systems that have releases.
pub fn release_file_name(os: Os, arch: Arch, version: &str) -> (res: Option<String>)
    ensures
        match spec_release_file_name(os, arch, version@) {
            Some(name) => res matches Some(r) && r@ == name,
            None => res is None,
        },
{
    match os {
        Os::Linux => {
            let tag = if arch == Arch::Arm64 {
                "aarch64"
            } else {
                "x86_64"
            };
            let mut name = String::from_str("awscli-exe-linux-");
            name.append(tag);
            name.append("-");
            name.append(version);
            name.append(".zip");
            Some(name)
        },
        Os::MacOS => {
            let mut name = String::from_str("AWSCLIV2-");
            name.append(version);
            name.append(".pkg");
            Some(name)
        },
        Os::Windows => {
            let mut name = String::from_str("AWSCLIV2-");
            name.append(version);
            name.append(".msi");
            Some(name)
        },
        _ => None,
    }
}

/// Returns the URL of the release file `file_name`.
pub fn release_url(file_name: &str) -> (res: String)
    ensures
        res@ == release_base_url() + file_name@,
{
    let mut url = String::from_str("https://awscli.amazonaws.com/");
    url.append(file_name);
    url
}

/// Where a prebuilt release is downloaded from, and the name of the file.
pub struct PrebuiltDownload {
    pub download_url: String,
    pub download_name: Option<String>,
}

/// Returns where to download `version` of the AWS CLI for the host.
///
/// Canary versions are refused with `UnsupportedCanary`; a host outside the
/// supported permutations is refused as `check_supported_os_and_arch` does.
/// Otherwise the download is the release file of that version for the host.
pub fn download_prebuilt(os: Os, arch: Arch, version: &str, is_canary: bool) -> (res: Result<
    PrebuiltDownload,
    PluginFailure,
>)
    ensures
        is_canary ==> (res matches Err(PluginFailure::UnsupportedCanary { tool: t }) && t@
            == TOOL_NAME@),
        !is_canary ==> (res is Ok <==> host_supported(awscli_arches(os), arch)),
        !is_canary ==> (res matches Err(f) ==> target_refusal(
            f,
            TOOL_NAME@,
            awscli_arches(os),
            os,
            arch,
        )),
        res matches Ok(d) ==> {
            &&& spec_release_file_name(os, arch, version@) matches Some(name)
            &&& d.download_name matches Some(n) && n@ == name
            &&& d.download_url@ == release_base_url() + name
        },
{
    if is_canary {
        return Err(PluginFailure::UnsupportedCanary { tool: String::from_str(TOOL_NAME) });
    }
    let permutations = supported_permutations();
    let checked = check_supported_os_and_arch(TOOL_NAME, os, arch, &permutations);
    if let Err(e) = checked {
        return Err(e);
    }
    let name = release_file_name(os, arch, version);
    match name {
        Some(n) => {
            let url = release_url(n.as_str());
            Ok(PrebuiltDownload { download_url: url, download_name: Some(n) })
        },
        None => {
            // `check_supported_os_and_arch` accepted the host, so it has a release.
            assert(false);
            Err(PluginFailure::UnsupportedCanary { tool: String::from_str(TOOL_NAME) })
        },
    }
}

/// The release file name holds the whole version text, unchanged, between
/// a prefix and a suffix that depend only on the host: distinct versions get
/// distinct files, and the URL is the file name under the release site.
pub proof fn law_release_name_holds_version(os: Os, arch: Arch, version: Seq<char>, other: Seq<char>)
    ensures
        os == Os::Linux ==> spec_release_file_name(os, arch, version) == Some(
            "awscli-exe-linux-"@ + (if arch == Arch::Arm64 {
                "aarch64"@
            } else {
                "x86_64"@
            }) + "-"@ + version + ".zip"@,
        ),
        os == Os::MacOS ==> spec_release_file_name(os, arch, version) == Some(
            "AWSCLIV2-"@ + version + ".pkg"@,
        ),
        os == Os::Windows ==> spec_release_file_name(os, arch, version) == Some(
            "AWSCLIV2-"@ + version + ".msi"@,
        ),
        version != other ==> spec_release_file_name(os, arch, version) is None
            || spec_release_file_name(os, arch, version) != spec_release_file_name(os, arch, other),
        release_base_url() == "https://awscli.amazonaws.com/"@,
{
    if version != other {
        if let Some(n1) = spec_release_file_name(os, arch, version) {
            let n2 = spec_release_file_name(os, arch, other).unwrap();
            let (pre, suf): (Seq<char>, Seq<char>) = match os {
                Os::Linux => ("awscli-exe-linux-"@ + linux_arch_tag(arch) + "-"@, ".zip"@),
                Os::MacOS => ("AWSCLIV2-"@, ".pkg"@),
                _ => ("AWSCLIV2-"@, ".msi"@),
            };
            assert(n1 == pre + version + suf);
            assert(n2 == pre + other + suf);
            if n1 == n2 {
                assert(version.len() == other.len());
                assert forall|i: int| 0 <= i < version.len() implies version[i] == other[i] by {
                    assert(n1[pre.len() + i] == version[i]);
                    assert(n2[pre.len() + i] == other[i]);
                }
                assert(version =~= other);
            }
        }
    }
}

} // verus!
