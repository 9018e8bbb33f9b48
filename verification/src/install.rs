//! Installing the AWS CLI with its native installer, as a sequence of steps.
//!
//! The installer alternates work on the host (downloads, commands) with
//! decisions. `native_install` makes the decisions: given the request, the
//! current stage and what the last piece of host work reported, it returns
//! the next stage and the next action for the host to perform.
use vstd::prelude::*;
use vstd::string::*;
use crate::download::{awscli_arches, release_base_url, release_file_name, release_url, spec_release_file_name};
use crate::paths::{
    guest_path_join, spec_guest_join, spec_windows_host_path, spec_windows_join,
    trim_trailing_backslashes, windows_host_path, windows_join,
};
use crate::platform::{Arch, Os, host_supported, os_name, spec_os_name};
use crate::text::{decimal_text, double_single_quotes, spec_decimal, spec_double_single_quotes};
use crate::versions::string_views;

verus! {

/// What is installed, and where.
pub struct InstallRequest {
    pub os: Os,
    pub arch: Arch,
    /// The version being installed, as text.
    pub version: String,
    /// The real path of the install directory.
    pub install_dir: String,
    /// The real path of the temporary directory that downloads land in.
    pub temp_dir: String,
}

/// A command for the host to run.
pub struct CommandRequest {
    pub command: String,
    pub args: Vec<String>,
    /// Stream the output to the console instead of capturing it.
    pub stream: bool,
    /// Mark the command as executable before running it.
    pub set_executable: bool,
    /// Whether the install goes on when the command cannot be run at all;
    /// otherwise that failure ends the plugin call with an error.
    pub failure_tolerated: bool,
}

/// How an install ended.
pub struct InstallOutcome {
    pub installed: bool,
    pub error: Option<String>,
}

/// The next piece of work for the host.
pub enum InstallAction {
    /// Download `url` into the temporary directory, as `file_name`.
    Download { url: String, file_name: String },
    /// Run a command.
    Run(CommandRequest),
    /// The install is over.
    Finish(InstallOutcome),
}

/// What the host reports after a piece of work.
pub enum InstallEvent {
    /// The install starts.
    Begin,
    /// The download is done; the file is in the temporary directory, under
    /// the name the `Download` action gave.
    Downloaded,
    /// The command ran and exited.
    CommandExited { exit_code: i32, stdout: String, stderr: String },
    /// The command could not be run.
    CommandFailed,
}

/// Where an install stands.
pub enum InstallStage {
    Start,
    /// Waiting for the release file to be downloaded.
    Downloading,
    /// Linux: waiting for the archive to be unzipped.
    Unzipping,
    /// Linux: waiting for the bundled installer.
    RunningInstaller,
    /// macOS: waiting for the package to be expanded.
    Expanding,
    /// macOS: waiting for the payload to be copied.
    Copying,
    /// Windows: waiting for the MSI to be extracted.
    ExtractingMsi,
    /// Windows: the extraction failed; waiting for the tail of its log.
    ReadingMsiLog { exit_code: i32, stderr: String, stdout: String },
    Finished,
}

/// An install request as plain values.
pub struct RequestView {
    pub os: Os,
    pub arch: Arch,
    pub version: Seq<char>,
    pub install_dir: Seq<char>,
    pub temp_dir: Seq<char>,
}

/// An action as plain values.
pub enum ActionView {
    Download { url: Seq<char>, file_name: Seq<char> },
    Run {
        command: Seq<char>,
        args: Seq<Seq<char>>,
        stream: bool,
        set_executable: bool,
        failure_tolerated: bool,
    },
    Finish { installed: bool, error: Option<Seq<char>> },
}

/// An event as plain values.
pub enum EventView {
    Begin,
    Downloaded,
    CommandExited { exit_code: i32, stdout: Seq<char>, stderr: Seq<char> },
    CommandFailed,
}

/// A stage as plain values.
pub enum StageView {
    Start,
    Downloading,
    Unzipping,
    RunningInstaller,
    Expanding,
    Copying,
    ExtractingMsi,
    ReadingMsiLog { exit_code: i32, stderr: Seq<char>, stdout: Seq<char> },
    Finished,
}

impl View for InstallRequest {
    type V = RequestView;

    open spec fn view(&self) -> RequestView {
        RequestView {
            os: self.os,
            arch: self.arch,
            version: self.version@,
            install_dir: self.install_dir@,
            temp_dir: self.temp_dir@,
        }
    }
}

impl View for InstallAction {
    type V = ActionView;

    open spec fn view(&self) -> ActionView {
        match self {
            InstallAction::Download { url, file_name } => ActionView::Download {
                url: url@,
                file_name: file_name@,
            },
            InstallAction::Run(c) => ActionView::Run {
                command: c.command@,
                args: string_views(c.args@),
                stream: c.stream,
                set_executable: c.set_executable,
                failure_tolerated: c.failure_tolerated,
            },
            InstallAction::Finish(o) => ActionView::Finish {
                installed: o.installed,
                error: match o.error {
                    Some(e) => Some(e@),
                    None => None,
                },
            },
        }
    }
}

impl View for InstallEvent {
    type V = EventView;

    open spec fn view(&self) -> EventView {
        match self {
            InstallEvent::Begin => EventView::Begin,
            InstallEvent::Downloaded => EventView::Downloaded,
            InstallEvent::CommandExited { exit_code, stdout, stderr } => EventView::CommandExited {
                exit_code: *exit_code,
                stdout: stdout@,
                stderr: stderr@,
            },
            InstallEvent::CommandFailed => EventView::CommandFailed,
        }
    }
}

impl View for InstallStage {
    type V = StageView;

    open spec fn view(&self) -> StageView {
        match self {
            InstallStage::Start => StageView::Start,
            InstallStage::Downloading => StageView::Downloading,
            InstallStage::Unzipping => StageView::Unzipping,
            InstallStage::RunningInstaller => StageView::RunningInstaller,
            InstallStage::Expanding => StageView::Expanding,
            InstallStage::Copying => StageView::Copying,
            InstallStage::ExtractingMsi => StageView::ExtractingMsi,
            InstallStage::ReadingMsiLog { exit_code, stderr, stdout } => StageView::ReadingMsiLog {
                exit_code: *exit_code,
                stderr: stderr@,
                stdout: stdout@,
            },
            InstallStage::Finished => StageView::Finished,
        }
    }
}

/// A captured command with the given arguments, which must run.
pub open spec fn captured(command: Seq<char>, args: Seq<Seq<char>>) -> ActionView {
    ActionView::Run { command, args, stream: false, set_executable: false, failure_tolerated: false }
}

/// A failed install with the given message.
pub open spec fn failed(message: Seq<char>) -> ActionView {
    ActionView::Finish { installed: false, error: Some(message) }
}

/// A successful install.
pub open spec fn succeeded() -> ActionView {
    ActionView::Finish { installed: true, error: None }
}

/// Where the downloaded release file lies: its name joined to the temporary
/// directory.
pub open spec fn downloaded_file(req: RequestView) -> Seq<char> {
    spec_guest_join(req.temp_dir, spec_release_file_name(req.os, req.arch, req.version).unwrap())
}

/// Where a macOS package is expanded to.
pub open spec fn expanded_dir(temp_dir: Seq<char>) -> Seq<char> {
    temp_dir + "/aws-cli-expanded"@
}

/// The file the Windows installer writes its log to.
pub open spec fn msi_log_path(temp_dir: Seq<char>) -> Seq<char> {
    spec_windows_join(temp_dir, "awscli-msi.log"@)
}

/// The PowerShell script that prints the last lines of the log at `log_path`.
pub open spec fn log_tail_script(log_path: Seq<char>) -> Seq<char> {
    let quoted = spec_double_single_quotes(log_path);
    "if (Test-Path -LiteralPath '"@ + quoted + "') { Get-Content -LiteralPath '"@ + quoted
        + "' -Tail 40 | Out-String }"@
}

/// The message of a failed Windows extraction.
pub open spec fn msi_failure_message(
    exit_code: i32,
    stderr: Seq<char>,
    stdout: Seq<char>,
    log_tail: Seq<char>,
) -> Seq<char> {
    "AWS CLI MSI extraction failed (exit "@ + spec_decimal(exit_code as int) + "): "@ + stderr
        + "\n"@ + stdout + "\n"@ + log_tail
}

/// The next stage and action of an install, or `None` when the event does
/// not answer the work of that stage.
pub open spec fn install_step(req: RequestView, stage: StageView, event: EventView) -> Option<
    (StageView, ActionView),
> {
    match (stage, event) {
        (StageView::Start, EventView::Begin) => match spec_release_file_name(
            req.os,
            req.arch,
            req.version,
        ) {
            Some(name) => Some(
                (
                    StageView::Downloading,
                    ActionView::Download { url: release_base_url() + name, file_name: name },
                ),
            ),
            None => Some(
                (
                    StageView::Finished,
                    failed("Unsupported operating system: "@ + spec_os_name(req.os)),
                ),
            ),
        },
        (StageView::Downloading, EventView::Downloaded) => match req.os {
            Os::Linux => Some(
                (
                    StageView::Unzipping,
                    captured(
                        "unzip"@,
                        seq!["-o"@, downloaded_file(req), "-d"@, req.temp_dir],
                    ),
                ),
            ),
            Os::MacOS => Some(
                (
                    StageView::Expanding,
                    captured(
                        "pkgutil"@,
                        seq!["--expand-full"@, downloaded_file(req), expanded_dir(req.temp_dir)],
                    ),
                ),
            ),
            Os::Windows => Some(
                (
                    StageView::ExtractingMsi,
                    captured(
                        "msiexec"@,
                        seq![
                            "/a"@,
                            spec_windows_join(
                                req.temp_dir,
                                spec_release_file_name(req.os, req.arch, req.version).unwrap(),
                            ),
                            "/qn"@,
                            "/norestart"@,
                            "TARGETDIR="@ + spec_windows_host_path(req.install_dir),
                            "/L*v"@,
                            msi_log_path(req.temp_dir),
                        ],
                    ),
                ),
            ),
            _ => None,
        },
        (StageView::Unzipping, EventView::CommandExited { exit_code, stdout, stderr }) => {
            if exit_code != 0 {
                Some((StageView::Finished, failed("Failed to unzip AWS CLI archive: "@ + stderr)))
            } else {
                Some(
                    (
                        StageView::RunningInstaller,
                        ActionView::Run {
                            command: req.temp_dir + "/aws/install"@,
                            args: seq![
                                "--install-dir"@,
                                req.install_dir,
                                "--bin-dir"@,
                                req.install_dir + "/bin"@,
                                "--update"@,
                            ],
                            stream: true,
                            set_executable: true,
                            failure_tolerated: false,
                        },
                    ),
                )
            }
        },
        (StageView::RunningInstaller, EventView::CommandExited { exit_code, stdout, stderr }) => {
            if exit_code != 0 {
                Some((StageView::Finished, failed("AWS CLI installer failed: "@ + stderr)))
            } else {
                Some((StageView::Finished, succeeded()))
            }
        },
        (StageView::Expanding, EventView::CommandExited { exit_code, stdout, stderr }) => {
            if exit_code != 0 {
                Some((StageView::Finished, failed("Failed to expand AWS CLI package: "@ + stderr)))
            } else {
                Some(
                    (
                        StageView::Copying,
                        captured(
                            "cp"@,
                            seq![
                                "-R"@,
                                expanded_dir(req.temp_dir) + "/aws-cli.pkg/Payload/aws-cli"@
                                    + "/."@,
                                req.install_dir,
                            ],
                        ),
                    ),
                )
            }
        },
        (StageView::Copying, EventView::CommandExited { exit_code, stdout, stderr }) => {
            if exit_code != 0 {
                Some((StageView::Finished, failed("Failed to copy AWS CLI files: "@ + stderr)))
            } else {
                Some((StageView::Finished, succeeded()))
            }
        },
        (StageView::ExtractingMsi, EventView::CommandExited { exit_code, stdout, stderr }) => {
            if exit_code != 0 {
                Some(
                    (
                        StageView::ReadingMsiLog { exit_code, stderr, stdout },
                        ActionView::Run {
                            command: "powershell"@,
                            args: seq![
                                "-NoProfile"@,
                                "-Command"@,
                                log_tail_script(msi_log_path(req.temp_dir)),
                            ],
                            stream: false,
                            set_executable: false,
                            failure_tolerated: true,
                        },
                    ),
                )
            } else {
                Some((StageView::Finished, succeeded()))
            }
        },
        (StageView::ReadingMsiLog { exit_code, stderr, stdout }, EventView::CommandExited {
            exit_code: _,
            stdout: log_tail,
            stderr: _,
        }) => Some(
            (StageView::Finished, failed(msi_failure_message(exit_code, stderr, stdout, log_tail))),
        ),
        (StageView::ReadingMsiLog { exit_code, stderr, stdout }, EventView::CommandFailed) => Some(
            (StageView::Finished, failed(msi_failure_message(exit_code, stderr, stdout, Seq::empty()))),
        ),
        _ => None,
    }
}

/// The plain view of what `native_install` returns.
pub open spec fn step_view(res: Option<(InstallStage, InstallAction)>) -> Option<(StageView, ActionView)> {
    match res {
        Some((stage, action)) => Some((stage@, action@)),
        None => None,
    }
}

fn owned(s: &str) -> (res: String)
    ensures
        res@ == s@,
{
    String::from_str(s)
}

fn concat2(a: &str, b: &str) -> (res: String)
    ensures
        res@ == a@ + b@,
{
    let mut res = String::from_str(a);
    res.append(b);
    res
}

fn run_captured(command: &str, args: Vec<String>) -> (res: InstallAction)
    ensures
        res@ == captured(command@, string_views(args@)),
{
    InstallAction::Run(
        CommandRequest {
            command: owned(command),
            args,
            stream: false,
            set_executable: false,
            failure_tolerated: false,
        },
    )
}

fn fail_with(message: String) -> (res: InstallAction)
    ensures
        res@ == failed(message@),
{
    InstallAction::Finish(InstallOutcome { installed: false, error: Some(message) })
}

fn succeed() -> (res: InstallAction)
    ensures
        res@ == succeeded(),
{
    InstallAction::Finish(InstallOutcome { installed: true, error: None })
}

fn start(req: &InstallRequest) -> (res: (InstallStage, InstallAction))
    ensures
        install_step(req@, StageView::Start, EventView::Begin) == Some((res.0@, res.1@)),
{
    match release_file_name(req.os, req.arch, req.version.as_str()) {
        Some(name) => {
            let url = release_url(name.as_str());
            (InstallStage::Downloading, InstallAction::Download { url, file_name: name })
        },
        None => {
            let message = concat2("Unsupported operating system: ", os_name(req.os));
            (InstallStage::Finished, fail_with(message))
        },
    }
}

fn after_download(req: &InstallRequest) -> (res: Option<(InstallStage, InstallAction)>)
    ensures
        step_view(res) == install_step(req@, StageView::Downloading, EventView::Downloaded),
{
    let temp_dir = req.temp_dir.as_str();
    match req.os {
        Os::Linux => {
            let name = release_file_name(req.os, req.arch, req.version.as_str());
            match name {
                Some(name) => {
                    let zip_path = guest_path_join(temp_dir, name.as_str());
                    let args = vec![owned("-o"), zip_path, owned("-d"), owned(temp_dir)];
                    assert(string_views(args@) =~= seq![
                        "-o"@,
                        downloaded_file(req@),
                        "-d"@,
                        temp_dir@,
                    ]);
                    Some((InstallStage::Unzipping, run_captured("unzip", args)))
                },
                None => None,
            }
        },
        Os::MacOS => {
            let name = release_file_name(req.os, req.arch, req.version.as_str());
            match name {
                Some(name) => {
                    let pkg_path = guest_path_join(temp_dir, name.as_str());
                    let expanded = concat2(temp_dir, "/aws-cli-expanded");
                    let args = vec![owned("--expand-full"), pkg_path, expanded];
                    assert(string_views(args@) =~= seq![
                        "--expand-full"@,
                        downloaded_file(req@),
                        expanded_dir(temp_dir@),
                    ]);
                    Some((InstallStage::Expanding, run_captured("pkgutil", args)))
                },
                None => None,
            }
        },
        Os::Windows => {
            let msi_name = release_file_name(req.os, req.arch, req.version.as_str());
            match msi_name {
                Some(name) => {
                    let msi_path = windows_join(temp_dir, name.as_str());
                    let install_dir_win = windows_host_path(req.install_dir.as_str());
                    let target = concat2("TARGETDIR=", install_dir_win.as_str());
                    let log_path = windows_join(temp_dir, "awscli-msi.log");
                    let args = vec![
                        owned("/a"),
                        msi_path,
                        owned("/qn"),
                        owned("/norestart"),
                        target,
                        owned("/L*v"),
                        log_path,
                    ];
                    assert(string_views(args@) =~= seq![
                        "/a"@,
                        spec_windows_join(temp_dir@, name@),
                        "/qn"@,
                        "/norestart"@,
                        "TARGETDIR="@ + spec_windows_host_path(req.install_dir@),
                        "/L*v"@,
                        msi_log_path(temp_dir@),
                    ]);
                    Some((InstallStage::ExtractingMsi, run_captured("msiexec", args)))
                },
                None => None,
            }
        },
        _ => None,
    }
}

fn log_tail_command(temp_dir: &str) -> (res: InstallAction)
    ensures
        res@ == (ActionView::Run {
            command: "powershell"@,
            args: seq!["-NoProfile"@, "-Command"@, log_tail_script(msi_log_path(temp_dir@))],
            stream: false,
            set_executable: false,
            failure_tolerated: true,
        }),
{
    let log_path = windows_join(temp_dir, "awscli-msi.log");
    let quoted = double_single_quotes(log_path.as_str());
    let mut script = String::from_str("if (Test-Path -LiteralPath '");
    script.append(quoted.as_str());
    script.append("') { Get-Content -LiteralPath '");
    script.append(quoted.as_str());
    script.append("' -Tail 40 | Out-String }");
    let args = vec![owned("-NoProfile"), owned("-Command"), script];
    assert(string_views(args@) =~= seq![
        "-NoProfile"@,
        "-Command"@,
        log_tail_script(msi_log_path(temp_dir@)),
    ]);
    InstallAction::Run(
        CommandRequest {
            command: owned("powershell"),
            args,
            stream: false,
            set_executable: false,
            failure_tolerated: true,
        },
    )
}

fn msi_failure(exit_code: i32, stderr: &str, stdout: &str, log_tail: &str) -> (res: String)
    ensures
        res@ == msi_failure_message(exit_code, stderr@, stdout@, log_tail@),
{
    let code = decimal_text(exit_code);
    let mut message = String::from_str("AWS CLI MSI extraction failed (exit ");
    message.append(code.as_str());
    message.append("): ");
    message.append(stderr);
    message.append("\n");
    message.append(stdout);
    message.append("\n");
    message.append(log_tail);
    message
}

fn after_command(
    req: &InstallRequest,
    stage: &InstallStage,
    exit_code: i32,
    stdout: &String,
    stderr: &String,
) -> (res: Option<(InstallStage, InstallAction)>)
    ensures
        step_view(res) == install_step(
            req@,
            stage@,
            EventView::CommandExited { exit_code, stdout: stdout@, stderr: stderr@ },
        ),
{
    let temp_dir = req.temp_dir.as_str();
    let install_dir = req.install_dir.as_str();
    match stage {
        InstallStage::Unzipping => {
            if exit_code != 0 {
                Some(
                    (
                        InstallStage::Finished,
                        fail_with(concat2("Failed to unzip AWS CLI archive: ", stderr.as_str())),
                    ),
                )
            } else {
                let installer = concat2(temp_dir, "/aws/install");
                let bin_dir = concat2(install_dir, "/bin");
                let args = vec![
                    owned("--install-dir"),
                    owned(install_dir),
                    owned("--bin-dir"),
                    bin_dir,
                    owned("--update"),
                ];
                assert(string_views(args@) =~= seq![
                    "--install-dir"@,
                    install_dir@,
                    "--bin-dir"@,
                    install_dir@ + "/bin"@,
                    "--update"@,
                ]);
                Some(
                    (
                        InstallStage::RunningInstaller,
                        InstallAction::Run(
                            CommandRequest {
                                command: installer,
                                args,
                                stream: true,
                                set_executable: true,
                                failure_tolerated: false,
                            },
                        ),
                    ),
                )
            }
        },
        InstallStage::RunningInstaller => {
            if exit_code != 0 {
                Some(
                    (
                        InstallStage::Finished,
                        fail_with(concat2("AWS CLI installer failed: ", stderr.as_str())),
                    ),
                )
            } else {
                Some((InstallStage::Finished, succeed()))
            }
        },
        InstallStage::Expanding => {
            if exit_code != 0 {
                Some(
                    (
                        InstallStage::Finished,
                        fail_with(concat2("Failed to expand AWS CLI package: ", stderr.as_str())),
                    ),
                )
            } else {
                let mut payload = concat2(temp_dir, "/aws-cli-expanded");
                payload.append("/aws-cli.pkg/Payload/aws-cli");
                payload.append("/.");
                let args = vec![owned("-R"), payload, owned(install_dir)];
                assert(string_views(args@) =~= seq![
                    "-R"@,
                    expanded_dir(temp_dir@) + "/aws-cli.pkg/Payload/aws-cli"@ + "/."@,
                    install_dir@,
                ]);
                Some((InstallStage::Copying, run_captured("cp", args)))
            }
        },
        InstallStage::Copying => {
            if exit_code != 0 {
                Some(
                    (
                        InstallStage::Finished,
                        fail_with(concat2("Failed to copy AWS CLI files: ", stderr.as_str())),
                    ),
                )
            } else {
                Some((InstallStage::Finished, succeed()))
            }
        },
        InstallStage::ExtractingMsi => {
            if exit_code != 0 {
                Some(
                    (
                        InstallStage::ReadingMsiLog {
                            exit_code,
                            stderr: stderr.clone(),
                            stdout: stdout.clone(),
                        },
                        log_tail_command(temp_dir),
                    ),
                )
            } else {
                Some((InstallStage::Finished, succeed()))
            }
        },
        InstallStage::ReadingMsiLog { exit_code: code, stderr: err, stdout: out } => {
            let message = msi_failure(*code, err.as_str(), out.as_str(), stdout.as_str());
            Some((InstallStage::Finished, fail_with(message)))
        },
        _ => None,
    }
}

/// Decides the next step of a native install of the AWS CLI.
///
/// Linux downloads the zip archive, unzips it into the temporary directory
/// and runs the bundled installer into the install directory; macOS
/// downloads the package, expands it and copies its payload; Windows
/// downloads the MSI and extracts it administratively, reading the tail of
/// the installer log when that fails. A command that exits with a non-zero
/// code ends the install with an error message; other operating systems are
/// refused at once. Returns `None` when the event does not answer the work
/// of the stage.
pub fn native_install(req: &InstallRequest, stage: &InstallStage, event: &InstallEvent) -> (res:
    Option<(InstallStage, InstallAction)>)
    ensures
        step_view(res) == install_step(req@, stage@, event@),
{
    match (stage, event) {
        (InstallStage::Start, InstallEvent::Begin) => Some(start(req)),
        (InstallStage::Downloading, InstallEvent::Downloaded) => after_download(req),
        (_, InstallEvent::CommandExited { exit_code, stdout, stderr }) => after_command(
            req,
            stage,
            *exit_code,
            stdout,
            stderr,
        ),
        (InstallStage::ReadingMsiLog { exit_code, stderr, stdout }, InstallEvent::CommandFailed) => {
            let message = msi_failure(*exit_code, stderr.as_str(), stdout.as_str(), "");
            proof {
                reveal_strlit("");
                assert(""@ =~= Seq::<char>::empty());
            }
            Some((InstallStage::Finished, fail_with(message)))
        },
        _ => None,
    }
}

/// How many steps an install has left at most from a stage.
pub open spec fn stage_rank(stage: StageView) -> nat {
    match stage {
        StageView::Start => 4,
        StageView::Downloading => 3,
        StageView::Unzipping => 2,
        StageView::Expanding => 2,
        StageView::ExtractingMsi => 2,
        StageView::RunningInstaller => 1,
        StageView::Copying => 1,
        StageView::ReadingMsiLog { .. } => 1,
        StageView::Finished => 0,
    }
}

/// Every step moves an install closer to its end, so an install is over
/// after at most four steps; a finished install takes no further step, and
/// a step finishes the install exactly when its action is `Finish`.
pub proof fn law_install_progresses(req: RequestView, stage: StageView, event: EventView)
    ensures
        install_step(req, stage, event) matches Some((next, action)) ==> {
            &&& stage_rank(next) < stage_rank(stage)
            &&& (action is Finish <==> next is Finished)
        },
        stage is Finished ==> install_step(req, stage, event) is None,
{
}

/// When the AWS CLI has a prebuilt release for the host, the native install
/// downloads exactly the file that `download_prebuilt` points to: the same
/// URL, under the same name.
pub proof fn law_install_downloads_prebuilt_release(req: RequestView)
    requires
        host_supported(awscli_arches(req.os), req.arch),
    ensures
        spec_release_file_name(req.os, req.arch, req.version) matches Some(name) && install_step(
            req,
            StageView::Start,
            EventView::Begin,
        ) == Some(
            (
                StageView::Downloading,
                ActionView::Download { url: release_base_url() + name, file_name: name },
            ),
        ),
{
}

/// On Linux and macOS the install unpacks exactly the file it downloaded:
/// the first command after the download takes, as the archive to open, the
/// downloaded file name inside the temporary directory.
pub proof fn law_install_unpacks_downloaded_file(req: RequestView)
    requires
        req.os == Os::Linux || req.os == Os::MacOS,
    ensures
        install_step(req, StageView::Start, EventView::Begin) matches Some(
            (_, ActionView::Download { file_name, .. }),
        ) && install_step(req, StageView::Downloading, EventView::Downloaded) matches Some(
            (_, ActionView::Run { args, .. }),
        ) && args[1] == spec_guest_join(req.temp_dir, file_name),
{
}

/// An operating system without releases is refused at the first step, with
/// no download and no command.
pub proof fn law_install_refuses_unknown_os(req: RequestView)
    requires
        awscli_arches(req.os) is None,
    ensures
        install_step(req, StageView::Start, EventView::Begin) == Some(
            (StageView::Finished, failed("Unsupported operating system: "@ + spec_os_name(req.os))),
        ),
{
}

/// Only the reading of the installer log may fail to run without failing
/// the plugin call, and only that reading is answered with `CommandFailed`.
pub proof fn law_only_log_reading_may_fail(req: RequestView, stage: StageView, event: EventView)
    ensures
        install_step(req, stage, event) matches Some(
            (next, ActionView::Run { failure_tolerated: true, .. }),
        ) ==> next is ReadingMsiLog,
        event is CommandFailed && install_step(req, stage, event) is Some ==> stage is ReadingMsiLog,
{
}

/// An install only succeeds right after a command that exited with code 0.
pub proof fn law_install_success_needs_clean_exit(
    req: RequestView,
    stage: StageView,
    event: EventView,
)
    ensures
        install_step(req, stage, event) matches Some((_, ActionView::Finish { installed: true, .. }))
            ==> event matches EventView::CommandExited { exit_code: 0, .. },
{
}

/// A command that exits with a non-zero code fails the install: at once, or,
/// on Windows, after the tail of the installer log is read, whatever that
/// reading command reports.
pub proof fn law_failed_command_fails_install(
    req: RequestView,
    stage: StageView,
    exit_code: i32,
    stdout: Seq<char>,
    stderr: Seq<char>,
    next_event: EventView,
)
    requires
        exit_code != 0,
        next_event is CommandExited || next_event is CommandFailed,
    ensures
        install_step(req, stage, EventView::CommandExited { exit_code, stdout, stderr }) matches Some(
            (next, action),
        ) ==> {
            ||| action matches ActionView::Finish { installed: false, .. }
            ||| install_step(req, next, next_event) matches Some(
                (_, ActionView::Finish { installed: false, .. }),
            )
        },
{
}

/// Whether an event reports a command that exited with code 0, or is no
/// command report at all.
pub open spec fn exit_clean(event: EventView) -> bool {
    event matches EventView::CommandExited { exit_code, .. } ==> exit_code == 0
}

/// Whether every command reported among `events` exited with code 0.
pub open spec fn all_exits_clean(events: Seq<EventView>) -> bool {
    forall|i: int| 0 <= i < events.len() ==> exit_clean(#[trigger] events[i])
}

/// The last action of an install that starts at `stage` and receives
/// `events` in turn, or `None` when there is no event or one of them does
/// not answer the work of its stage.
pub open spec fn install_run(req: RequestView, stage: StageView, events: Seq<EventView>) -> Option<
    ActionView,
>
    decreases events.len(),
{
    if events.len() == 0 {
        None
    } else {
        match install_step(req, stage, events[0]) {
            None => None,
            Some((next, action)) => if events.len() == 1 {
                Some(action)
            } else {
                install_run(req, next, events.drop_first())
            },
        }
    }
}

/// Whether an install at `stage` can still succeed: it has not yet failed,
/// and, before it starts, its operating system has a release.
pub open spec fn still_clean(req: RequestView, stage: StageView) -> bool {
    match stage {
        StageView::Start => spec_release_file_name(req.os, req.arch, req.version) is Some,
        StageView::ReadingMsiLog { .. } => false,
        _ => true,
    }
}

proof fn lemma_run_outcome(req: RequestView, stage: StageView, events: Seq<EventView>)
    ensures
        install_run(req, stage, events) matches Some(ActionView::Finish { installed, error }) ==> {
            &&& (installed <==> error is None)
            &&& (installed <==> still_clean(req, stage) && all_exits_clean(events))
        },
    decreases events.len(),
{
    if events.len() > 1 {
        if let Some((next, action)) = install_step(req, stage, events[0]) {
            let rest = events.drop_first();
            lemma_run_outcome(req, next, rest);
            if install_run(req, next, rest) is Some {
                assert(next !is Finished);
                assert(still_clean(req, next) == (still_clean(req, stage) && exit_clean(events[0])));
                assert(all_exits_clean(events) == (exit_clean(events[0]) && all_exits_clean(rest)))
                    by {
                    if all_exits_clean(events) {
                        assert forall|i: int| 0 <= i < rest.len() implies exit_clean(
                            #[trigger] rest[i],
                        ) by {
                            assert(rest[i] == events[i + 1]);
                        }
                    }
                    if exit_clean(events[0]) && all_exits_clean(rest) {
                        assert forall|i: int| 0 <= i < events.len() implies exit_clean(
                            #[trigger] events[i],
                        ) by {
                            if i > 0 {
                                assert(events[i] == rest[i - 1]);
                            }
                        }
                    }
                }
            }
        }
    } else if events.len() == 1 {
        assert(all_exits_clean(events) == exit_clean(events[0]));
    }
}

/// Over a whole install: it ends installed exactly when it ends without an
/// error, and exactly when its operating system has a release and every
/// command it ran (unzip and the installer, pkgutil and cp, or msiexec)
/// exited with code 0. A failed install always carries an error message.
pub proof fn law_install_run_outcome(req: RequestView, events: Seq<EventView>)
    ensures
        install_run(req, StageView::Start, events) matches Some(
            ActionView::Finish { installed, error },
        ) ==> {
            &&& (installed <==> error is None)
            &&& (installed <==> spec_release_file_name(req.os, req.arch, req.version) is Some
                && all_exits_clean(events))
        },
{
    lemma_run_outcome(req, StageView::Start, events);
}

/// On Windows the MSI handed to msiexec right after the download is the
/// downloaded file inside the temporary directory, formatted for Windows,
/// with exactly one backslash between directory and file name.
pub proof fn law_install_extracts_downloaded_msi(req: RequestView)
    requires
        req.os == Os::Windows,
    ensures
        install_step(req, StageView::Start, EventView::Begin) matches Some(
            (_, ActionView::Download { file_name, .. }),
        ) && install_step(req, StageView::Downloading, EventView::Downloaded) matches Some(
            (_, ActionView::Run { command, args, .. }),
        ) && command == "msiexec"@ && args[1] == trim_trailing_backslashes(
            spec_windows_host_path(req.temp_dir),
        ) + seq!['\\'] + file_name,
{
}

} // verus!
