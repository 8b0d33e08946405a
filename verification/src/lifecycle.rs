//! Launching a chain: what is done, in which order, and which failures end
//! the launch.
//!
//! The steps themselves (folders, downloads, processes, tasks) are the
//! caller's work.

use crate::supervisor::Platform;
use crate::text::texts;
use vstd::prelude::*;

verus! {

/// How a chain is launched.
#[derive(Clone, Debug, PartialEq, Eq)]
pub enum LaunchMode {
    /// A new chain from the stock configuration.
    Easy,
    /// A new chain from a configuration given as JSON.
    Advanced(String),
    /// A new chain from a configuration given as TOML.
    Expert(String),
    /// The chain in the named folder, as it is.
    FromExisting(String),
}

/// One step of a launch.
#[derive(Clone, Debug, PartialEq, Eq)]
pub enum LaunchStep {
    /// Make the base folder if it is not there.
    EnsureBaseFolder,
    /// Find the next free chain folder and create it.
    CreateChainFolder,
    /// Take the folder of this name below the base folder.
    UseChainFolder { name: String },
    /// Fetch the configuration from `url` into the chain folder.
    DownloadConfig { url: &'static str },
    /// Translate the JSON text to TOML and write it into the chain folder.
    TranslateConfig { json: String },
    /// Write the TOML text into the chain folder.
    WriteConfig { toml: String },
    /// Run the genesis creator on the configuration, in the chain folder.
    GenerateGenesis,
    /// Start the node in the chain folder and keep its handle.
    StartNode,
    /// Start the task that reads the node's log and delivers snapshots.
    AttachLogWatcher,
    /// Start the indexer task.
    StartIndexer,
}

/// Where the stock configuration is fetched from.
pub open spec fn stock_config_url() -> &'static str {
    "http://0x0.st/HpsT.toml"
}

/// The steps that start the node and the two tasks beside it.
pub open spec fn run_steps() -> Seq<LaunchStep> {
    seq![LaunchStep::StartNode, LaunchStep::AttachLogWatcher, LaunchStep::StartIndexer]
}

/// The steps of a launch, in order. A new chain gets a folder, then its
/// configuration, then its genesis data; an existing chain is started as it
/// is.
pub open spec fn launch_steps_spec(mode: LaunchMode) -> Seq<LaunchStep> {
    match mode {
        LaunchMode::Easy => seq![
            LaunchStep::EnsureBaseFolder,
            LaunchStep::CreateChainFolder,
            LaunchStep::DownloadConfig { url: stock_config_url() },
            LaunchStep::GenerateGenesis,
        ] + run_steps(),
        LaunchMode::Advanced(json) => seq![
            LaunchStep::EnsureBaseFolder,
            LaunchStep::CreateChainFolder,
            LaunchStep::TranslateConfig { json },
            LaunchStep::GenerateGenesis,
        ] + run_steps(),
        LaunchMode::Expert(toml) => seq![
            LaunchStep::EnsureBaseFolder,
            LaunchStep::CreateChainFolder,
            LaunchStep::WriteConfig { toml },
            LaunchStep::GenerateGenesis,
        ] + run_steps(),
        LaunchMode::FromExisting(name) => seq![
            LaunchStep::EnsureBaseFolder,
            LaunchStep::UseChainFolder { name },
        ] + run_steps(),
    }
}

/// The steps of a launch in the given mode.
pub fn launch_steps(mode: LaunchMode) -> (steps: Vec<LaunchStep>)
    ensures
        steps@ == launch_steps_spec(mode),
{
    let mut steps: Vec<LaunchStep> = Vec::new();
    steps.push(LaunchStep::EnsureBaseFolder);
    match mode {
        LaunchMode::Easy => {
            steps.push(LaunchStep::CreateChainFolder);
            steps.push(LaunchStep::DownloadConfig { url: "http://0x0.st/HpsT.toml" });
            steps.push(LaunchStep::GenerateGenesis);
        },
        LaunchMode::Advanced(json) => {
            steps.push(LaunchStep::CreateChainFolder);
            steps.push(LaunchStep::TranslateConfig { json });
            steps.push(LaunchStep::GenerateGenesis);
        },
        LaunchMode::Expert(toml) => {
            steps.push(LaunchStep::CreateChainFolder);
            steps.push(LaunchStep::WriteConfig { toml });
            steps.push(LaunchStep::GenerateGenesis);
        },
        LaunchMode::FromExisting(name) => {
            steps.push(LaunchStep::UseChainFolder { name });
        },
    }
    steps.push(LaunchStep::StartNode);
    steps.push(LaunchStep::AttachLogWatcher);
    steps.push(LaunchStep::StartIndexer);
    assert(steps@ =~= launch_steps_spec(mode));
    steps
}

/// Whether the failure of a step ends the launch. A download or a genesis
/// run that fails is reported and the launch goes on.
pub open spec fn failure_is_fatal_spec(step: LaunchStep) -> bool {
    !(step is DownloadConfig || step is GenerateGenesis)
}

/// Whether the failure of `step` ends the launch.
pub fn failure_is_fatal(step: &LaunchStep) -> (fatal: bool)
    ensures
        fatal == failure_is_fatal_spec(*step),
{
    match step {
        LaunchStep::DownloadConfig { .. } => false,
        LaunchStep::GenerateGenesis => false,
        _ => true,
    }
}

/// Every launch, whatever its mode, first sees to the base folder and ends
/// by starting the node, then the log watcher, then the indexer; the genesis
/// creator runs exactly for the modes that make a new chain, and then after
/// the configuration is in place and before the node starts.
pub proof fn theorem_launch_shape(mode: LaunchMode)
    ensures
        ({
            let steps = launch_steps_spec(mode);
            let n = steps.len() as int;
            &&& n >= 5
            &&& steps[0] == LaunchStep::EnsureBaseFolder
            &&& steps[n - 3] == LaunchStep::StartNode
            &&& steps[n - 2] == LaunchStep::AttachLogWatcher
            &&& steps[n - 1] == LaunchStep::StartIndexer
            &&& (mode is FromExisting <==> n == 5)
            &&& (!(mode is FromExisting) ==> n == 7 && steps[1] == LaunchStep::CreateChainFolder
                && steps[3] == LaunchStep::GenerateGenesis)
            &&& forall|i: int|
                0 <= i < n ==> (#[trigger] steps[i] == LaunchStep::GenerateGenesis ==> i == 3
                    && !(mode is FromExisting))
        }),
{
}

/// The name of the configuration file inside a chain folder.
pub fn config_file_name() -> (name: &'static str)
    ensures
        name@ == "desired_toml_file_name.toml"@,
{
    "desired_toml_file_name.toml"
}

/// Where a program is looked for.
#[derive(Clone, Copy, Debug, PartialEq, Eq)]
pub enum ProgramLocation {
    /// By this name, on the search path.
    OnPath { name: &'static str },
    /// At this path below the user's home directory.
    UnderHome { relative: &'static str },
}

/// Where the genesis creator is found on a platform.
pub open spec fn genesis_creator_spec(platform: Platform) -> ProgramLocation {
    if platform is Windows {
        ProgramLocation::OnPath { name: "genesis-creator" }
    } else {
        ProgramLocation::UnderHome { relative: ".cargo/bin/genesis-creator" }
    }
}

/// Where the genesis creator is found on `platform`.
pub fn genesis_creator(platform: Platform) -> (program: ProgramLocation)
    ensures
        program == genesis_creator_spec(platform),
{
    match platform {
        Platform::Windows => ProgramLocation::OnPath { name: "genesis-creator" },
        _ => ProgramLocation::UnderHome { relative: ".cargo/bin/genesis-creator" },
    }
}

/// The arguments of the genesis run on the configuration at `config_path`.
pub fn genesis_arguments(config_path: String) -> (args: Vec<String>)
    ensures
        texts(args@) == seq!["generate"@, "--config"@, config_path@],
{
    let mut args: Vec<String> = Vec::new();
    args.push("generate".to_owned());
    args.push("--config".to_owned());
    args.push(config_path);
    assert(texts(args@) =~= seq!["generate"@, "--config"@, config_path@]);
    args
}

/// The channel on which block snapshots are delivered.
pub fn snapshot_channel() -> (name: &'static str)
    ensures
        name@ == "new-block"@,
{
    "new-block"
}

/// The channel on which transaction batches are delivered.
pub fn transaction_channel() -> (name: &'static str)
    ensures
        name@ == "transactions"@,
{
    "transactions"
}

} // verus!
