//! Finding and installing the node and the genesis creator: which files,
//! commands and messages belong to which platform, and what the outcome of a
//! command means.
//!
//! Probing the file system, downloading and running commands are the
//! caller's work.

use crate::lifecycle::ProgramLocation;
use crate::supervisor::Platform;
use crate::text::{chars_of, contains, contains_spec, joined, texts};
use vstd::prelude::*;

verus! {

/// What `regex` answers when `text` is searched for `pattern`: whether there
/// is a match anywhere in `text`, and nothing where `pattern` is no valid
/// pattern.
pub uninterp spec fn regex_search(pattern: Seq<char>, text: Seq<char>) -> Option<bool>;

/// `regex::Regex::is_match` on `text`, for the regex that `regex::Regex::new`
/// makes of `pattern`; nothing where `new` refuses the pattern. The contract
/// gives the answer its name and claims nothing more of it.
#[verifier::external_body]
fn regex_is_match(pattern: &str, text: &str) -> (found: Option<bool>)
    ensures
        found == regex_search(pattern@, text@),
{
    match regex::Regex::new(pattern) {
        Ok(compiled) => Some(compiled.is_match(text)),
        Err(_) => None,
    }
}

/// The paths at which the node's executable is looked for, in order, where it
/// has fixed places.
pub open spec fn executable_candidates_spec(platform: Platform) -> Seq<&'static str> {
    match platform {
        Platform::Linux | Platform::MacOs => seq![
            "/usr/bin/concordium-node",
            "/usr/local/bin/concordium-node",
        ],
        _ => Seq::empty(),
    }
}

/// The fixed places of the node's executable on `platform`, in the order in
/// which they are tried.
pub fn executable_candidates(platform: Platform) -> (paths: Vec<&'static str>)
    ensures
        paths@ == executable_candidates_spec(platform),
{
    let mut paths: Vec<&'static str> = Vec::new();
    match platform {
        Platform::Linux | Platform::MacOs => {
            paths.push("/usr/bin/concordium-node");
            paths.push("/usr/local/bin/concordium-node");
        },
        _ => {},
    }
    assert(paths@ =~= executable_candidates_spec(platform));
    paths
}

/// Which candidate to take, given for each whether it exists: the first that
/// does.
pub fn first_existing(present: &Vec<bool>) -> (chosen: Option<usize>)
    ensures
        match chosen {
            Some(i) => i < present@.len() && present@[i as int] && forall|j: int|
                0 <= j < i ==> !present@[j],
            None => forall|j: int| 0 <= j < present@.len() ==> !present@[j],
        },
{
    let mut i: usize = 0;
    while i < present.len()
        invariant
            i <= present@.len(),
            forall|j: int| 0 <= j < i ==> !present@[j],
        decreases present@.len() - i,
    {
        if present[i] {
            return Some(i);
        }
        i += 1;
    }
    None
}

/// The folder below which the node is installed where it has no fixed place.
pub fn install_root() -> (path: &'static str)
    ensures
        path@ == "C:\\Program Files\\Concordium"@,
{
    "C:\\Program Files\\Concordium"
}

/// The pattern that the name of a node's folder matches.
pub open spec fn node_folder_pattern() -> Seq<char> {
    "Node \\d+\\.\\d+\\.\\d+"@
}

/// The file name of the node's executable inside its folder.
pub fn node_executable_name() -> (name: &'static str)
    ensures
        name@ == "concordium-node.exe"@,
{
    "concordium-node.exe"
}

/// One entry of the install root.
#[derive(Clone, Debug, PartialEq, Eq)]
pub struct FolderEntry {
    pub name: String,
    pub is_directory: bool,
    /// Whether the node's executable lies directly inside.
    pub holds_executable: bool,
}

/// Whether entry `i` is a node's folder: a directory whose name matched and
/// which holds the executable. `matched` says for each entry whether its
/// name matched; beyond its end nothing matched.
pub open spec fn is_node_folder(entries: Seq<FolderEntry>, matched: Seq<bool>, i: int) -> bool {
    0 <= i < entries.len() && i < matched.len() && entries[i].is_directory && matched[i]
        && entries[i].holds_executable
}

/// The choice among `entries`: the first entry that is a node's folder.
pub open spec fn selects(
    entries: Seq<FolderEntry>,
    matched: Seq<bool>,
    chosen: Option<usize>,
) -> bool {
    match chosen {
        Some(i) => is_node_folder(entries, matched, i as int) && forall|j: int|
            0 <= j < i ==> !is_node_folder(entries, matched, j),
        None => forall|j: int| 0 <= j < entries.len() ==> !is_node_folder(entries, matched, j),
    }
}

/// Picks the node's folder among the entries of the install root, given for
/// each entry whether its name matched the pattern.
pub fn select_node_folder(entries: &Vec<FolderEntry>, matched: &Vec<bool>) -> (chosen: Option<
    usize,
>)
    ensures
        selects(entries@, matched@, chosen),
{
    let mut i: usize = 0;
    while i < entries.len() && i < matched.len()
        invariant
            i <= entries@.len(),
            i <= matched@.len(),
            forall|j: int| 0 <= j < i ==> !is_node_folder(entries@, matched@, j),
        decreases entries@.len() - i,
    {
        if entries[i].is_directory && matched[i] && entries[i].holds_executable {
            return Some(i);
        }
        i += 1;
    }
    None
}

/// Whether the search of each entry's name for the folder pattern found a
/// match.
pub open spec fn pattern_matches(entries: Seq<FolderEntry>) -> Seq<bool> {
    Seq::new(
        entries.len(),
        |i: int| regex_search(node_folder_pattern(), entries[i].name@) == Some(true),
    )
}

/// Finds the node's folder among the entries of the install root: the first
/// directory whose name matches the pattern and which holds the executable.
pub fn find_node_folder(entries: &Vec<FolderEntry>) -> (chosen: Option<usize>)
    ensures
        selects(entries@, pattern_matches(entries@), chosen),
{
    let mut matched: Vec<bool> = Vec::new();
    let mut i: usize = 0;
    while i < entries.len()
        invariant
            i <= entries@.len(),
            matched@ == pattern_matches(entries@).take(i as int),
        decreases entries@.len() - i,
    {
        let found = match regex_is_match("Node \\d+\\.\\d+\\.\\d+", entries[i].name.as_str()) {
            Some(found) => found,
            None => false,
        };
        matched.push(found);
        i += 1;
        assert(matched@ =~= pattern_matches(entries@).take(i as int));
    }
    assert(matched@ =~= pattern_matches(entries@));
    select_node_folder(entries, &matched)
}

/// The message for a node that is found nowhere.
pub fn executable_not_found() -> (text: &'static str)
    ensures
        text@ == "Concordium Node executable not found"@,
{
    "Concordium Node executable not found"
}

/// Where the node's installer is downloaded from; none for a platform that
/// is not supported.
pub open spec fn installer_url_spec(platform: Platform) -> Option<&'static str> {
    match platform {
        Platform::Windows => Some(
            "https://distribution.concordium.software/windows/Signed/Node-6.0.4-0.msi",
        ),
        Platform::MacOs => Some(
            "https://distribution.concordium.software/macos/signed/concordium-node-6.0.4-0.pkg",
        ),
        Platform::Linux => Some(
            "https://distribution.mainnet.concordium.software/deb/concordium-mainnet-node_6.0.4-0_amd64.deb",
        ),
        Platform::Other => None,
    }
}

/// Where the node's installer is downloaded from.
pub fn installer_url(platform: Platform) -> (url: Option<&'static str>)
    ensures
        url == installer_url_spec(platform),
{
    match platform {
        Platform::Windows => Some(
            "https://distribution.concordium.software/windows/Signed/Node-6.0.4-0.msi",
        ),
        Platform::MacOs => Some(
            "https://distribution.concordium.software/macos/signed/concordium-node-6.0.4-0.pkg",
        ),
        Platform::Linux => Some(
            "https://distribution.mainnet.concordium.software/deb/concordium-mainnet-node_6.0.4-0_amd64.deb",
        ),
        Platform::Other => None,
    }
}

/// The file name under which the installer is kept.
pub open spec fn installer_file_name_spec(platform: Platform) -> Option<&'static str> {
    match platform {
        Platform::Windows => Some("concordium-node-lc1c.msi"),
        Platform::MacOs => Some("concordium-node-lc1c.pkg"),
        Platform::Linux => Some("concordium-node-lc1c.deb"),
        Platform::Other => None,
    }
}

/// The file name under which the installer is kept.
pub fn installer_file_name(platform: Platform) -> (name: Option<&'static str>)
    ensures
        name == installer_file_name_spec(platform),
{
    match platform {
        Platform::Windows => Some("concordium-node-lc1c.msi"),
        Platform::MacOs => Some("concordium-node-lc1c.pkg"),
        Platform::Linux => Some("concordium-node-lc1c.deb"),
        Platform::Other => None,
    }
}

/// The folder the installer is downloaded into.
#[derive(Clone, Copy, Debug, PartialEq, Eq)]
pub enum DownloadFolder {
    /// This folder.
    Fixed { path: &'static str },
    /// The user's download folder, or the home directory where there is
    /// none.
    UserDownloads,
}

/// The folder the installer is downloaded into on `platform`.
pub fn download_folder(platform: Platform) -> (folder: DownloadFolder)
    ensures
        folder == (if platform is Linux {
            DownloadFolder::Fixed { path: "/tmp" }
        } else {
            DownloadFolder::UserDownloads
        }),
{
    match platform {
        Platform::Linux => DownloadFolder::Fixed { path: "/tmp" },
        _ => DownloadFolder::UserDownloads,
    }
}

/// What an installation begins with.
#[derive(Clone, Copy, Debug, PartialEq, Eq)]
pub enum InstallPlan {
    /// The node is installed already: nothing is done.
    AlreadyInstalled,
    /// The platform has no installer.
    Unsupported,
    /// Download the installer from `url` into `folder` as `file_name`, then
    /// run it.
    Download { url: &'static str, file_name: &'static str, folder: DownloadFolder },
}

/// What an installation begins with: nothing where the node is there, else
/// the download that belongs to the platform.
pub open spec fn install_plan_spec(installed: bool, platform: Platform) -> InstallPlan {
    if installed {
        InstallPlan::AlreadyInstalled
    } else if platform is Other {
        InstallPlan::Unsupported
    } else {
        InstallPlan::Download {
            url: installer_url_spec(platform)->Some_0,
            file_name: installer_file_name_spec(platform)->Some_0,
            folder: if platform is Linux {
                DownloadFolder::Fixed { path: "/tmp" }
            } else {
                DownloadFolder::UserDownloads
            },
        }
    }
}

/// The plan of an installation, given whether the node's executable was
/// found.
pub fn install_plan(installed: bool, platform: Platform) -> (plan: InstallPlan)
    ensures
        plan == install_plan_spec(installed, platform),
{
    if installed {
        return InstallPlan::AlreadyInstalled;
    }
    match (installer_url(platform), installer_file_name(platform)) {
        (Some(url), Some(file_name)) => InstallPlan::Download {
            url,
            file_name,
            folder: download_folder(platform),
        },
        _ => InstallPlan::Unsupported,
    }
}

/// The message for a platform without an installer.
pub fn unsupported_platform() -> (text: &'static str)
    ensures
        text@ == "Unsupported OS"@,
{
    "Unsupported OS"
}

/// The resource that holds the install script run on Linux.
pub fn install_script_resource() -> (path: &'static str)
    ensures
        path@ == "assets/install_concordium_debian.sh"@,
{
    "assets/install_concordium_debian.sh"
}

/// A program and its arguments.
#[derive(Clone, Debug, PartialEq, Eq)]
pub struct CommandLine {
    pub program: &'static str,
    pub arguments: Vec<String>,
}

/// The arguments with which the installer at `installer` is run; `script` is
/// the path of the install script, which only Linux uses.
pub open spec fn installer_arguments_spec(
    platform: Platform,
    installer: Seq<char>,
    script: Seq<char>,
) -> Seq<Seq<char>> {
    match platform {
        Platform::Linux => seq!["bash"@, script, installer],
        Platform::Windows => seq!["/i"@, installer, "/passive"@, "/norestart"@],
        Platform::MacOs => seq!["installer"@, "-pkg"@, installer, "-target"@, "/"@],
        Platform::Other => Seq::empty(),
    }
}

/// The program that runs the installer.
pub open spec fn installer_program_spec(platform: Platform) -> Option<&'static str> {
    match platform {
        Platform::Linux => Some("pkexec"),
        Platform::Windows => Some("msiexec"),
        Platform::MacOs => Some("sudo"),
        Platform::Other => None,
    }
}

/// The command that runs the downloaded installer; none where the platform
/// has no installer.
pub fn installer_command(platform: Platform, installer: &str, script: &str) -> (command: Option<
    CommandLine,
>)
    ensures
        match command {
            Some(line) => installer_program_spec(platform) == Some(line.program) && texts(
                line.arguments@,
            ) == installer_arguments_spec(platform, installer@, script@),
            None => platform is Other,
        },
{
    let mut arguments: Vec<String> = Vec::new();
    match platform {
        Platform::Linux => {
            arguments.push("bash".to_owned());
            arguments.push(script.to_owned());
            arguments.push(installer.to_owned());
            assert(texts(arguments@) =~= installer_arguments_spec(platform, installer@, script@));
            Some(CommandLine { program: "pkexec", arguments })
        },
        Platform::Windows => {
            arguments.push("/i".to_owned());
            arguments.push(installer.to_owned());
            arguments.push("/passive".to_owned());
            arguments.push("/norestart".to_owned());
            assert(texts(arguments@) =~= installer_arguments_spec(platform, installer@, script@));
            Some(CommandLine { program: "msiexec", arguments })
        },
        Platform::MacOs => {
            arguments.push("installer".to_owned());
            arguments.push("-pkg".to_owned());
            arguments.push(installer.to_owned());
            arguments.push("-target".to_owned());
            arguments.push("/".to_owned());
            assert(texts(arguments@) =~= installer_arguments_spec(platform, installer@, script@));
            Some(CommandLine { program: "sudo", arguments })
        },
        Platform::Other => None,
    }
}

/// How the run of a command ended, as far as an installation asks.
#[derive(Clone, Copy, Debug, PartialEq, Eq)]
pub enum RunOutcome {
    /// The command could not be started.
    NotStarted,
    /// The command ran and reported failure.
    Failed,
    /// The command ran and reported success.
    Succeeded,
}

/// The result of an installation, from how the installer's run ended.
pub open spec fn install_result_spec(platform: Platform, outcome: RunOutcome) -> Result<
    (),
    &'static str,
> {
    match outcome {
        RunOutcome::Succeeded => Ok(()),
        RunOutcome::Failed => if platform is Windows {
            Err("Installation failed. Ensure you are running with administrative privileges.")
        } else {
            Err("Installation failed")
        },
        RunOutcome::NotStarted => match platform {
            Platform::Linux => Err("Failed to execute the bash script with pkexec"),
            Platform::Windows => Err("Failed to execute msiexec command"),
            Platform::MacOs => Err("Failed to execute installer command"),
            Platform::Other => Ok(()),
        },
    }
}

/// The result of an installation, from how the installer's run ended.
pub fn install_result(platform: Platform, outcome: RunOutcome) -> (result: Result<
    (),
    &'static str,
>)
    ensures
        result == install_result_spec(platform, outcome),
{
    match outcome {
        RunOutcome::Succeeded => Ok(()),
        RunOutcome::Failed => match platform {
            Platform::Windows => Err(
                "Installation failed. Ensure you are running with administrative privileges.",
            ),
            _ => Err("Installation failed"),
        },
        RunOutcome::NotStarted => match platform {
            Platform::Linux => Err("Failed to execute the bash script with pkexec"),
            Platform::Windows => Err("Failed to execute msiexec command"),
            Platform::MacOs => Err("Failed to execute installer command"),
            Platform::Other => Ok(()),
        },
    }
}

/// Whether a download with this HTTP status is taken: only 200 is.
pub fn download_accepted(status: u16) -> (accepted: bool)
    ensures
        accepted == (status == 200),
{
    status == 200
}

/// The message for a download that was refused; `status` is the response's
/// status as the server worded it.
pub fn download_refused(status: &str) -> (text: String)
    ensures
        text@ == "Failed to download file. HTTP response: "@ + status@,
{
    joined("Failed to download file. HTTP response: ", status)
}

/// Whether a downloaded file is opened right after the download.
pub fn opens_after_download(platform: Platform) -> (opens: bool)
    ensures
        opens == (platform is MacOs),
{
    match platform {
        Platform::MacOs => true,
        _ => false,
    }
}

/// Whether what a command wrote to its error stream says that the command
/// does not exist.
pub open spec fn reports_missing_command(stderr: Seq<char>) -> bool {
    contains_spec(stderr, "command not found"@) || contains_spec(
        stderr,
        "No such file or directory"@,
    )
}

/// What the node's version query tells: the version it printed, or why there
/// is none.
pub open spec fn version_report_spec(
    success: bool,
    stdout: Seq<char>,
    stderr: Seq<char>,
) -> Result<Seq<char>, Seq<char>> {
    if reports_missing_command(stderr) {
        Err("Concordium node is not installed."@)
    } else if success {
        Ok(stdout)
    } else {
        Err(stderr)
    }
}

/// The views of the two sides of a textual result.
pub open spec fn result_text(result: Result<String, String>) -> Result<Seq<char>, Seq<char>> {
    match result {
        Ok(text) => Ok(text@),
        Err(text) => Err(text@),
    }
}

/// Reads the outcome of running the node with `--version`.
pub fn version_report(success: bool, stdout: String, stderr: String) -> (result: Result<
    String,
    String,
>)
    ensures
        result_text(result) == version_report_spec(success, stdout@, stderr@),
{
    let written = chars_of(stderr.as_str());
    let missing = chars_of("command not found");
    let absent = chars_of("No such file or directory");
    if contains(&written, &missing) || contains(&written, &absent) {
        Err("Concordium node is not installed.".to_owned())
    } else if success {
        Ok(stdout)
    } else {
        Err(stderr)
    }
}

/// One command of the installation of the genesis creator.
#[derive(Clone, Copy, Debug, PartialEq, Eq)]
pub enum GenesisStep {
    /// Ask the genesis creator for its version.
    ProbeCreator,
    /// Ask cargo for its version.
    ProbeCargo,
    /// Clone the repository that holds the genesis creator.
    CloneTools,
    /// Install the genesis creator from the clone.
    InstallFromClone,
    /// Remove the clone.
    RemoveClone,
    /// Install the genesis creator straight from the repository.
    InstallFromGit,
}

/// The repository that holds the genesis creator.
pub open spec fn tools_repository() -> &'static str {
    "https://github.com/Concordium/concordium-misc-tools.git"
}

/// The program of a step.
pub open spec fn genesis_program_spec(step: GenesisStep) -> ProgramLocation {
    match step {
        GenesisStep::ProbeCreator => ProgramLocation::OnPath { name: "genesis-creator" },
        GenesisStep::ProbeCargo => ProgramLocation::OnPath { name: "cargo" },
        GenesisStep::CloneTools => ProgramLocation::OnPath { name: "git" },
        GenesisStep::InstallFromClone => ProgramLocation::OnPath { name: "cargo" },
        GenesisStep::RemoveClone => ProgramLocation::OnPath { name: "cmd" },
        GenesisStep::InstallFromGit => ProgramLocation::UnderHome { relative: ".cargo/bin/cargo" },
    }
}

/// The arguments of a step.
pub open spec fn genesis_arguments_spec(step: GenesisStep) -> Seq<&'static str> {
    match step {
        GenesisStep::ProbeCreator => seq!["--version"],
        GenesisStep::ProbeCargo => seq!["--version"],
        GenesisStep::CloneTools => seq!["clone", "--recurse-submodules", tools_repository()],
        GenesisStep::InstallFromClone => seq![
            "install",
            "--path",
            "concordium-misc-tools/genesis-creator/",
            "--locked",
        ],
        GenesisStep::RemoveClone => seq!["/C", "rmdir", "/s", "/q", "concordium-misc-tools"],
        GenesisStep::InstallFromGit => seq![
            "install",
            "--git",
            tools_repository(),
            "genesis-creator",
            "--locked",
        ],
    }
}

/// The program of a step.
pub fn genesis_program(step: GenesisStep) -> (program: ProgramLocation)
    ensures
        program == genesis_program_spec(step),
{
    match step {
        GenesisStep::ProbeCreator => ProgramLocation::OnPath { name: "genesis-creator" },
        GenesisStep::ProbeCargo => ProgramLocation::OnPath { name: "cargo" },
        GenesisStep::CloneTools => ProgramLocation::OnPath { name: "git" },
        GenesisStep::InstallFromClone => ProgramLocation::OnPath { name: "cargo" },
        GenesisStep::RemoveClone => ProgramLocation::OnPath { name: "cmd" },
        GenesisStep::InstallFromGit => ProgramLocation::UnderHome { relative: ".cargo/bin/cargo" },
    }
}

/// The arguments of a step.
pub fn genesis_step_arguments(step: GenesisStep) -> (arguments: Vec<&'static str>)
    ensures
        arguments@ == genesis_arguments_spec(step),
{
    let mut arguments: Vec<&'static str> = Vec::new();
    match step {
        GenesisStep::ProbeCreator => {
            arguments.push("--version");
        },
        GenesisStep::ProbeCargo => {
            arguments.push("--version");
        },
        GenesisStep::CloneTools => {
            arguments.push("clone");
            arguments.push("--recurse-submodules");
            arguments.push("https://github.com/Concordium/concordium-misc-tools.git");
        },
        GenesisStep::InstallFromClone => {
            arguments.push("install");
            arguments.push("--path");
            arguments.push("concordium-misc-tools/genesis-creator/");
            arguments.push("--locked");
        },
        GenesisStep::RemoveClone => {
            arguments.push("/C");
            arguments.push("rmdir");
            arguments.push("/s");
            arguments.push("/q");
            arguments.push("concordium-misc-tools");
        },
        GenesisStep::InstallFromGit => {
            arguments.push("install");
            arguments.push("--git");
            arguments.push("https://github.com/Concordium/concordium-misc-tools.git");
            arguments.push("genesis-creator");
            arguments.push("--locked");
        },
    }
    assert(arguments@ =~= genesis_arguments_spec(step));
    arguments
}

/// The variable set in the environment before any step runs, and its value.
pub fn genesis_environment() -> (setting: (&'static str, &'static str))
    ensures
        setting.0@ == "CARGO_NET_GIT_FETCH_WITH_CLI"@,
        setting.1@ == "true"@,
{
    ("CARGO_NET_GIT_FETCH_WITH_CLI", "true")
}

/// The step an installation of the genesis creator begins with.
pub fn first_genesis_step(platform: Platform) -> (step: GenesisStep)
    ensures
        step == (if platform is Windows {
            GenesisStep::ProbeCreator
        } else {
            GenesisStep::InstallFromGit
        }),
{
    match platform {
        Platform::Windows => GenesisStep::ProbeCreator,
        _ => GenesisStep::InstallFromGit,
    }
}

/// How a step ended.
#[derive(Clone, Debug, PartialEq, Eq)]
pub enum StepOutcome {
    /// The command could not be started; `error` says why.
    NotStarted { error: String },
    /// The command ran.
    Exited { success: bool, stdout: String, stderr: String },
}

/// What follows a step.
#[derive(Debug, PartialEq, Eq)]
pub enum GenesisNext {
    Run(GenesisStep),
    Done(Result<String, String>),
}

/// What follows a step, as mathematics: the next step, or the result by its
/// text.
pub enum GenesisNextModel {
    Run(GenesisStep),
    Done(Result<Seq<char>, Seq<char>>),
}

/// What `next` stands for.
pub open spec fn genesis_next_model(next: GenesisNext) -> GenesisNextModel {
    match next {
        GenesisNext::Run(step) => GenesisNextModel::Run(step),
        GenesisNext::Done(result) => GenesisNextModel::Done(result_text(result)),
    }
}

/// The text that reports a finished installation.
pub open spec fn genesis_installed() -> Seq<char> {
    "Successfully installed genesis-creator"@
}

/// What follows `step`, given how it ended. A probe that can be started
/// means that the program is there; of the other steps only the one that
/// installs straight from the repository looks at how the command exited.
pub open spec fn after_genesis_step_spec(step: GenesisStep, outcome: StepOutcome) -> GenesisNextModel {
    match (step, outcome) {
        (GenesisStep::ProbeCreator, StepOutcome::NotStarted { .. }) => GenesisNextModel::Run(
            GenesisStep::ProbeCargo,
        ),
        (GenesisStep::ProbeCreator, StepOutcome::Exited { .. }) => GenesisNextModel::Done(
            Ok(genesis_installed()),
        ),
        (GenesisStep::ProbeCargo, StepOutcome::NotStarted { .. }) => GenesisNextModel::Done(
            Err(
                "Cargo is not found in your PATH. Please install Rust and Cargo, and ensure they are in your PATH."@,
            ),
        ),
        (GenesisStep::ProbeCargo, StepOutcome::Exited { .. }) => GenesisNextModel::Run(
            GenesisStep::CloneTools,
        ),
        (GenesisStep::CloneTools, StepOutcome::NotStarted { error }) => GenesisNextModel::Done(
            Err("Failed to clone the repository: "@ + error@),
        ),
        (GenesisStep::CloneTools, StepOutcome::Exited { .. }) => GenesisNextModel::Run(
            GenesisStep::InstallFromClone,
        ),
        (GenesisStep::InstallFromClone, StepOutcome::NotStarted { error }) => {
            GenesisNextModel::Done(Err("Failed to install with cargo: "@ + error@))
        },
        (GenesisStep::InstallFromClone, StepOutcome::Exited { .. }) => GenesisNextModel::Run(
            GenesisStep::RemoveClone,
        ),
        (GenesisStep::RemoveClone, StepOutcome::NotStarted { error }) => GenesisNextModel::Done(
            Err("Failed to delete the directory: "@ + error@),
        ),
        (GenesisStep::RemoveClone, StepOutcome::Exited { .. }) => GenesisNextModel::Done(
            Ok(genesis_installed()),
        ),
        (GenesisStep::InstallFromGit, StepOutcome::NotStarted { error }) => {
            GenesisNextModel::Done(Err("Cargo install command failed: "@ + error@))
        },
        (GenesisStep::InstallFromGit, StepOutcome::Exited { success, stdout, stderr }) => {
            if success {
                GenesisNextModel::Done(Ok(stdout@))
            } else {
                GenesisNextModel::Done(Err(stderr@))
            }
        },
    }
}

/// Takes the outcome of a step and says what follows.
pub fn after_genesis_step(step: GenesisStep, outcome: StepOutcome) -> (next: GenesisNext)
    ensures
        genesis_next_model(next) == after_genesis_step_spec(step, outcome),
{
    match (step, outcome) {
        (GenesisStep::ProbeCreator, StepOutcome::NotStarted { .. }) => GenesisNext::Run(
            GenesisStep::ProbeCargo,
        ),
        (GenesisStep::ProbeCreator, StepOutcome::Exited { .. }) => GenesisNext::Done(
            Ok("Successfully installed genesis-creator".to_owned()),
        ),
        (GenesisStep::ProbeCargo, StepOutcome::NotStarted { .. }) => GenesisNext::Done(
            Err(
                "Cargo is not found in your PATH. Please install Rust and Cargo, and ensure they are in your PATH.".to_owned(),
            ),
        ),
        (GenesisStep::ProbeCargo, StepOutcome::Exited { .. }) => GenesisNext::Run(
            GenesisStep::CloneTools,
        ),
        (GenesisStep::CloneTools, StepOutcome::NotStarted { error }) => GenesisNext::Done(
            Err(joined("Failed to clone the repository: ", error.as_str())),
        ),
        (GenesisStep::CloneTools, StepOutcome::Exited { .. }) => GenesisNext::Run(
            GenesisStep::InstallFromClone,
        ),
        (GenesisStep::InstallFromClone, StepOutcome::NotStarted { error }) => GenesisNext::Done(
            Err(joined("Failed to install with cargo: ", error.as_str())),
        ),
        (GenesisStep::InstallFromClone, StepOutcome::Exited { .. }) => GenesisNext::Run(
            GenesisStep::RemoveClone,
        ),
        (GenesisStep::RemoveClone, StepOutcome::NotStarted { error }) => GenesisNext::Done(
            Err(joined("Failed to delete the directory: ", error.as_str())),
        ),
        (GenesisStep::RemoveClone, StepOutcome::Exited { .. }) => GenesisNext::Done(
            Ok("Successfully installed genesis-creator".to_owned()),
        ),
        (GenesisStep::InstallFromGit, StepOutcome::NotStarted { error }) => GenesisNext::Done(
            Err(joined("Cargo install command failed: ", error.as_str())),
        ),
        (GenesisStep::InstallFromGit, StepOutcome::Exited { success, stdout, stderr }) => {
            if success {
                GenesisNext::Done(Ok(stdout))
            } else {
                GenesisNext::Done(Err(stderr))
            }
        },
    }
}

} // verus!
