//! Host operating systems and architectures, and the targets a tool supports.
use vstd::prelude::*;
use vstd::string::*;

verus! {

/// Operating system of the host machine.
#[derive(Clone, Copy, Debug, PartialEq, Eq, Structural)]
pub enum Os {
    Android,
    Dragonfly,
    FreeBSD,
    IOS,
    Linux,
    MacOS,
    NetBSD,
    OpenBSD,
    Solaris,
    Windows,
}

/// Processor architecture of the host machine.
#[derive(Clone, Copy, Debug, PartialEq, Eq, Structural)]
pub enum Arch {
    X86,
    X64,
    Arm,
    Arm64,
    LongArm64,
    M68k,
    Mips,
    Mips64,
    Powerpc,
    Powerpc64,
    Riscv64,
    S390x,
    Sparc64,
}

/// The name under which an operating system is shown to users.
pub open spec fn spec_os_name(os: Os) -> Seq<char> {
    match os {
        Os::Android => "android"@,
        Os::Dragonfly => "dragonfly"@,
        Os::FreeBSD => "freebsd"@,
        Os::IOS => "ios"@,
        Os::Linux => "linux"@,
        Os::MacOS => "macos"@,
        Os::NetBSD => "netbsd"@,
        Os::OpenBSD => "openbsd"@,
        Os::Solaris => "solaris"@,
        Os::Windows => "windows"@,
    }
}

/// The name under which an architecture is shown to users.
pub open spec fn spec_arch_name(arch: Arch) -> Seq<char> {
    match arch {
        Arch::X86 => "x86"@,
        Arch::X64 => "x64"@,
        Arch::Arm => "arm"@,
        Arch::Arm64 => "arm64"@,
        Arch::LongArm64 => "longarm64"@,
        Arch::M68k => "m68k"@,
        Arch::Mips => "mips"@,
        Arch::Mips64 => "mips64"@,
        Arch::Powerpc => "powerpc"@,
        Arch::Powerpc64 => "powerpc64"@,
        Arch::Riscv64 => "riscv64"@,
        Arch::S390x => "s390x"@,
        Arch::Sparc64 => "sparc64"@,
    }
}

/// Returns the display name of an operating system.
pub fn os_name(os: Os) -> (res: &'static str)
    ensures
        res@ == spec_os_name(os),
{
    match os {
        Os::Android => "android",
        Os::Dragonfly => "dragonfly",
        Os::FreeBSD => "freebsd",
        Os::IOS => "ios",
        Os::Linux => "linux",
        Os::MacOS => "macos",
        Os::NetBSD => "netbsd",
        Os::OpenBSD => "openbsd",
        Os::Solaris => "solaris",
        Os::Windows => "windows",
    }
}

/// Returns the display name of an architecture.
pub fn arch_name(arch: Arch) -> (res: &'static str)
    ensures
        res@ == spec_arch_name(arch),
{
    match arch {
        Arch::X86 => "x86",
        Arch::X64 => "x64",
        Arch::Arm => "arm",
        Arch::Arm64 => "arm64",
        Arch::LongArm64 => "longarm64",
        Arch::M68k => "m68k",
        Arch::Mips => "mips",
        Arch::Mips64 => "mips64",
        Arch::Powerpc => "powerpc",
        Arch::Powerpc64 => "powerpc64",
        Arch::Riscv64 => "riscv64",
        Arch::S390x => "s390x",
        Arch::Sparc64 => "sparc64",
    }
}

/// Why a plugin function refused its input.
#[derive(Debug)]
pub enum PluginFailure {
    /// The tool has no canary or nightly builds.
    UnsupportedCanary { tool: String },
    /// The tool has no build for the host operating system.
    UnsupportedOS { tool: String, os: String },
    /// The tool has builds for the host operating system, but not for its architecture.
    UnsupportedTarget { tool: String, arch: String, os: String },
}

/// The architectures listed for `os`: those of its last entry, as in a map
/// built from the entries in order.
pub open spec fn arches_for(permutations: Seq<(Os, Vec<Arch>)>, os: Os) -> Option<Seq<Arch>>
    decreases permutations.len(),
{
    if permutations.len() == 0 {
        None
    } else if permutations.last().0 == os {
        Some(permutations.last().1@)
    } else {
        arches_for(permutations.drop_last(), os)
    }
}

/// Whether a host with architecture `arch` is supported, given the
/// architectures listed for its operating system.
pub open spec fn host_supported(arches: Option<Seq<Arch>>, arch: Arch) -> bool {
    match arches {
        Some(a) => a.contains(arch),
        None => false,
    }
}

/// Whether `failure` is the refusal of an unsupported host `(os, arch)` by
/// `tool`, given the architectures listed for `os`: `UnsupportedOS` when the
/// operating system is not listed, `UnsupportedTarget` when it is.
pub open spec fn target_refusal(
    failure: PluginFailure,
    tool: Seq<char>,
    arches: Option<Seq<Arch>>,
    os: Os,
    arch: Arch,
) -> bool {
    match arches {
        None => failure matches PluginFailure::UnsupportedOS { tool: t, os: o } && t@ == tool
            && o@ == spec_os_name(os),
        Some(_) => failure matches PluginFailure::UnsupportedTarget { tool: t, arch: a, os: o }
            && t@ == tool && a@ == spec_arch_name(arch) && o@ == spec_os_name(os),
    }
}

/// Validates the host operating system and architecture against the
/// supported permutations: an unlisted OS is refused with `UnsupportedOS`,
/// a listed OS whose architectures do not include `arch` with `UnsupportedTarget`.
pub fn check_supported_os_and_arch(
    tool: &str,
    os: Os,
    arch: Arch,
    permutations: &Vec<(Os, Vec<Arch>)>,
) -> (res: Result<(), PluginFailure>)
    ensures
        res is Ok <==> host_supported(arches_for(permutations@, os), arch),
        res matches Err(f) ==> target_refusal(f, tool@, arches_for(permutations@, os), os, arch),
{
    let mut i: usize = permutations.len();
    proof {
        assert(permutations@.take(i as int) =~= permutations@);
    }
    while i > 0 && permutations[i - 1].0 != os
        invariant
            i <= permutations@.len(),
            arches_for(permutations@.take(i as int), os) == arches_for(permutations@, os),
        decreases i,
    {
        proof {
            assert(permutations@.take(i as int).drop_last() =~= permutations@.take(i - 1));
        }
        i = i - 1;
    }
    if i == 0 {
        return Err(
            PluginFailure::UnsupportedOS {
                tool: String::from_str(tool),
                os: String::from_str(os_name(os)),
            },
        );
    }
    proof {
        assert(permutations@.take(i as int).last() == permutations@[i - 1]);
    }
    let arches = &permutations[i - 1].1;
    assert(arches_for(permutations@, os) == Some(arches@));
    let mut j: usize = 0;
    while j < arches.len()
        invariant
            arches_for(permutations@, os) == Some(arches@),
            j <= arches@.len(),
            forall|k: int| 0 <= k < j ==> arches@[k] != arch,
        decreases arches@.len() - j,
    {
        if arches[j] == arch {
            return Ok(());
        }
        j = j + 1;
    }
    Err(
        PluginFailure::UnsupportedTarget {
            tool: String::from_str(tool),
            arch: String::from_str(arch_name(arch)),
            os: String::from_str(os_name(os)),
        },
    )
}

} // verus!
