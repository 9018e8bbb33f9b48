//! Where the AWS CLI executables live inside an install.
use vstd::prelude::*;
use vstd::string::*;
use crate::platform::Os;

verus! {

/// An executable that proto links and shims.
pub struct ExecutableEntry {
    /// The executable's name, as users invoke it.
    pub name: String,
    /// The file to execute, relative to the install directory.
    pub exe_path: String,
    /// Whether this is the tool's primary executable.
    pub primary: bool,
}

/// The relative paths of the `aws` and `aws_completer` executables.
pub open spec fn spec_executable_paths(os: Os) -> (Seq<char>, Seq<char>) {
    match os {
        Os::Linux => ("bin/aws"@, "bin/aws_completer"@),
        Os::MacOS => ("aws"@, "aws_completer"@),
        Os::Windows => ("Amazon/AWSCLIV2/aws.exe"@, "Amazon/AWSCLIV2/aws_completer.exe"@),
        _ => ("aws"@, "aws_completer"@),
    }
}

/// Lists the executables of an AWS CLI install: `aws`, the primary one, and
/// `aws_completer`, at the paths their installer leaves them on each
/// operating system (the MSI extracts them under `Amazon/AWSCLIV2`).
pub fn locate_executables(os: Os) -> (res: Vec<ExecutableEntry>)
    ensures
        res@.len() == 2,
        res@[0].name@ == "aws"@,
        res@[0].exe_path@ == spec_executable_paths(os).0,
        res@[0].primary,
        res@[1].name@ == "aws_completer"@,
        res@[1].exe_path@ == spec_executable_paths(os).1,
        !res@[1].primary,
{
    let (exe_path, completer_path) = match os {
        Os::Linux => ("bin/aws", "bin/aws_completer"),
        Os::MacOS => ("aws", "aws_completer"),
        Os::Windows => ("Amazon/AWSCLIV2/aws.exe", "Amazon/AWSCLIV2/aws_completer.exe"),
        _ => ("aws", "aws_completer"),
    };
    vec![
        ExecutableEntry {
            name: String::from_str("aws"),
            exe_path: String::from_str(exe_path),
            primary: true,
        },
        ExecutableEntry {
            name: String::from_str("aws_completer"),
            exe_path: String::from_str(completer_path),
            primary: false,
        },
    ]
}

/// How an uninstall ended.
pub struct UninstallOutcome {
    pub uninstalled: bool,
    pub error: Option<String>,
}

/// Uninstalls the AWS CLI. proto removes the install
/// directory itself, and the Windows install is an administrative MSI
/// extraction with no registered product, so there is nothing left to do:
/// the uninstall always succeeds.
pub fn native_uninstall() -> (res: UninstallOutcome)
    ensures
        res.uninstalled,
        res.error is None,
{
    UninstallOutcome { uninstalled: true, error: None }
}

/// On every operating system the completer lies next to the primary
/// executable, with the same extension: its path is the primary path with
/// the file stem `aws` replaced by `aws_completer`. On Windows both lie under
/// `Amazon/AWSCLIV2/`, where the administrative MSI extraction puts them.
pub proof fn law_completer_beside_primary(os: Os)
    ensures
        exists|dir: Seq<char>, ext: Seq<char>|
            spec_executable_paths(os).0 == dir + "aws"@ + ext && spec_executable_paths(os).1
                == dir + "aws_completer"@ + ext,
        os == Os::Windows ==> spec_executable_paths(os) == (
            "Amazon/AWSCLIV2/aws.exe"@,
            "Amazon/AWSCLIV2/aws_completer.exe"@,
        ),
{
    reveal_strlit("aws");
    reveal_strlit("aws_completer");
    reveal_strlit("bin/aws");
    reveal_strlit("bin/aws_completer");
    reveal_strlit("bin/");
    reveal_strlit("Amazon/AWSCLIV2/");
    reveal_strlit(".exe");
    reveal_strlit("Amazon/AWSCLIV2/aws.exe");
    reveal_strlit("Amazon/AWSCLIV2/aws_completer.exe");
    let empty = Seq::<char>::empty();
    match os {
        Os::Linux => {
            assert(spec_executable_paths(os).0 =~= "bin/"@ + "aws"@ + empty);
            assert(spec_executable_paths(os).1 =~= "bin/"@ + "aws_completer"@ + empty);
        },
        Os::Windows => {
            assert(spec_executable_paths(os).0 =~= "Amazon/AWSCLIV2/"@ + "aws"@ + ".exe"@);
            assert(spec_executable_paths(os).1 =~= "Amazon/AWSCLIV2/"@ + "aws_completer"@
                + ".exe"@);
        },
        _ => {
            assert(spec_executable_paths(os).0 =~= empty + "aws"@ + empty);
            assert(spec_executable_paths(os).1 =~= empty + "aws_completer"@ + empty);
        },
    }
}

} // verus!
