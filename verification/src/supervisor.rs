//! Supervision of the node process: how it is started, who owns its handle,
//! and how it is terminated.
//!
//! Spawning, reading the log stream and killing are the caller's work. The
//! handle type `H` is whatever the caller's process API gives.

use crate::error::ChainError;
use crate::text::texts;
use vstd::prelude::*;

verus! {

/// The operating system the application runs on.
#[derive(Clone, Copy, Debug, PartialEq, Eq)]
pub enum Platform {
    Windows,
    MacOs,
    Linux,
    Other,
}

impl Platform {
    /// Whether a process can be terminated through its own handle by a
    /// signal. Where it cannot, the process is found by name.
    pub open spec fn has_signals_spec(&self) -> bool {
        !(*self is Windows)
    }

    /// Whether processes are terminated through their handle here.
    pub fn has_signals(&self) -> (b: bool)
        ensures
            b == self.has_signals_spec(),
    {
        match self {
            Platform::Windows => false,
            _ => true,
        }
    }
}

/// The address the node's RPC is bound to and reached at.
pub open spec fn rpc_endpoint_spec() -> Seq<char> {
    "http://127.0.0.1:20100"@
}

/// The address the node's RPC is reached at.
pub fn rpc_endpoint() -> (url: &'static str)
    ensures
        url@ == rpc_endpoint_spec(),
{
    "http://127.0.0.1:20100"
}

/// The node's arguments: no peer bootstrap, the P2P port, the RPC bound to
/// loopback on its port, the working directory as data and as config
/// directory, and the baker credentials below that directory.
pub open spec fn node_arguments_spec() -> Seq<Seq<char>> {
    seq![
        "--no-bootstrap=true"@,
        "--listen-port"@,
        "8169"@,
        "--grpc2-listen-addr"@,
        "127.0.0.1"@,
        "--grpc2-listen-port"@,
        "20100"@,
        "--data-dir"@,
        "."@,
        "--config-dir"@,
        "."@,
        "--baker-credentials-file"@,
        "bakers/baker-0-credentials.json"@,
    ]
}

/// The arguments the node is started with. They are fixed.
pub fn node_arguments() -> (args: Vec<String>)
    ensures
        texts(args@) == node_arguments_spec(),
{
    let mut args: Vec<String> = Vec::new();
    args.push("--no-bootstrap=true".to_owned());
    args.push("--listen-port".to_owned());
    args.push("8169".to_owned());
    args.push("--grpc2-listen-addr".to_owned());
    args.push("127.0.0.1".to_owned());
    args.push("--grpc2-listen-port".to_owned());
    args.push("20100".to_owned());
    args.push("--data-dir".to_owned());
    args.push(".".to_owned());
    args.push("--config-dir".to_owned());
    args.push(".".to_owned());
    args.push("--baker-credentials-file".to_owned());
    args.push("bakers/baker-0-credentials.json".to_owned());
    assert(texts(args@) =~= node_arguments_spec());
    args
}

/// Which of the child's streams carries the node's log.
#[derive(Clone, Copy, Debug, PartialEq, Eq)]
pub enum LogStream {
    Stdout,
    Stderr,
}

/// How to start the node.
#[derive(Clone, Debug, PartialEq, Eq)]
pub struct NodeLaunch {
    pub executable: String,
    pub arguments: Vec<String>,
    /// The directory the node runs in: the chain's working directory.
    pub working_directory: String,
    /// The stream to read line by line.
    pub log: LogStream,
}

/// The start of the node at `executable` for the chain in `chain_directory`.
pub fn node_launch(executable: String, chain_directory: String) -> (launch: NodeLaunch)
    ensures
        launch.executable == executable,
        launch.working_directory == chain_directory,
        texts(launch.arguments@) == node_arguments_spec(),
        launch.log == LogStream::Stderr,
{
    NodeLaunch {
        executable,
        arguments: node_arguments(),
        working_directory: chain_directory,
        log: LogStream::Stderr,
    }
}

/// The result of a start: the handle, or the error for a process that could
/// not be spawned.
pub fn started<H>(spawned: Option<H>) -> (result: Result<H, ChainError>)
    ensures
        result == (match spawned {
            Some(handle) => Ok::<H, ChainError>(handle),
            None => Err::<H, ChainError>(ChainError::SpawnFailed),
        }),
{
    match spawned {
        Some(handle) => Ok(handle),
        None => Err(ChainError::SpawnFailed),
    }
}

/// The one place that owns the handle of the supervised process. At most one
/// handle is held. The caller guards the registry by a lock that it holds
/// for the length of one call here and never across outside work.
#[derive(Debug, PartialEq, Eq)]
pub struct ProcessRegistry<H> {
    pub slot: Option<H>,
}

impl<H> ProcessRegistry<H> {
    /// A registry that holds nothing.
    pub fn new() -> (registry: ProcessRegistry<H>)
        ensures
            registry.slot == None::<H>,
    {
        ProcessRegistry { slot: None }
    }

    /// Whether a handle is held.
    pub fn is_occupied(&self) -> (b: bool)
        ensures
            b == (self.slot is Some),
    {
        self.slot.is_some()
    }

    /// Puts `handle` in and hands out the handle that was held, so that the
    /// caller can end the process behind it.
    pub fn replace(&mut self, handle: H) -> (displaced: Option<H>)
        ensures
            final(self).slot == Some(handle),
            displaced == old(self).slot,
    {
        let mut held = Some(handle);
        std::mem::swap(&mut self.slot, &mut held);
        held
    }

    /// Moves the handle out. What is held afterwards is nothing, so each
    /// handle is handed out once.
    pub fn take(&mut self) -> (taken: Option<H>)
        ensures
            final(self).slot == None::<H>,
            taken == old(self).slot,
    {
        let mut held = None;
        std::mem::swap(&mut self.slot, &mut held);
        held
    }
}

/// What to do to terminate the node.
#[derive(Debug, PartialEq, Eq)]
pub enum KillPlan<H> {
    /// Kill the process behind `handle`.
    ThroughHandle { handle: H },
    /// Find the process by the name of its image and kill it by force. The
    /// handle that was held, if any, is given up with it.
    ByName { image: &'static str, released: Option<H> },
    /// No process is supervised.
    NothingToKill,
}

/// The name of the node's image where processes are found by name.
pub open spec fn node_image() -> &'static str {
    "concordium-node.exe"
}

/// What a kill does to a registry that holds `held`: what the registry holds
/// afterwards, which is nothing, and the plan.
pub open spec fn kill_spec<H>(held: Option<H>, platform: Platform) -> (Option<H>, KillPlan<H>) {
    if platform.has_signals_spec() {
        match held {
            Some(handle) => (None, KillPlan::ThroughHandle { handle }),
            None => (None, KillPlan::NothingToKill),
        }
    } else {
        (None, KillPlan::ByName { image: node_image(), released: held })
    }
}

/// Begins a kill: takes the handle out of the registry and says how the
/// process is to be terminated. A second kill finds the registry empty.
pub fn kill<H>(registry: &mut ProcessRegistry<H>, platform: Platform) -> (plan: KillPlan<H>)
    ensures
        (final(registry).slot, plan) == kill_spec(old(registry).slot, platform),
{
    let taken = registry.take();
    if platform.has_signals() {
        match taken {
            Some(handle) => KillPlan::ThroughHandle { handle },
            None => KillPlan::NothingToKill,
        }
    } else {
        KillPlan::ByName { image: "concordium-node.exe", released: taken }
    }
}

/// How a kill ended.
#[derive(Clone, Copy, Debug, PartialEq, Eq)]
pub enum KillReport {
    Killed,
    NothingToKill,
}

/// The report for a plan once it was carried out. `succeeded` says whether
/// the attempt to kill found and ended a process; it counts for nothing
/// where the plan was to do nothing.
pub fn kill_report<H>(plan: &KillPlan<H>, succeeded: bool) -> (report: KillReport)
    ensures
        report == (if plan is NothingToKill || !succeeded {
            KillReport::NothingToKill
        } else {
            KillReport::Killed
        }),
{
    match plan {
        KillPlan::NothingToKill => KillReport::NothingToKill,
        _ => if succeeded {
            KillReport::Killed
        } else {
            KillReport::NothingToKill
        },
    }
}

impl KillReport {
    /// The text shown to the user: `Ok` for a kill, `Err` where there was
    /// nothing to kill.
    pub fn message(&self) -> (text: Result<String, String>)
        ensures
            match *self {
                KillReport::Killed => text is Ok && text->Ok_0@
                    == "Killed concordium-node-collector process."@,
                KillReport::NothingToKill => text is Err && text->Err_0@
                    == "No running concordium-node-collector process to kill."@,
            },
    {
        match self {
            KillReport::Killed => Ok("Killed concordium-node-collector process.".to_owned()),
            KillReport::NothingToKill => Err(
                "No running concordium-node-collector process to kill.".to_owned(),
            ),
        }
    }
}

/// Two kills in a row, whatever the registry held and whatever else goes on
/// meanwhile: the second is handed no handle, so no handle is ever handed out
/// twice. Where processes are killed through their handle the second kill has
/// nothing to kill; where they are found by name it looks for the name again.
pub proof fn theorem_second_kill_finds_nothing<H>(platform: Platform, held: Option<H>)
    ensures
        kill_spec(held, platform).0 == None::<H>,
        kill_spec(kill_spec(held, platform).0, platform) == (
            None::<H>,
            if platform.has_signals_spec() {
                KillPlan::<H>::NothingToKill
            } else {
                KillPlan::<H>::ByName { image: node_image(), released: None }
            },
        ),
{
}

/// What the log watcher is told.
#[derive(Clone, Debug, PartialEq, Eq)]
pub enum LogEvent {
    /// The node wrote a line.
    Line(String),
    /// The stream has ended: the process is gone.
    Eof,
}

/// What the log watcher does next.
#[derive(Clone, Debug, PartialEq, Eq)]
pub enum WatchCommand {
    /// Log the line, attempt one snapshot, deliver it if there is one, then
    /// read on.
    LogAndAssemble { line: String },
    /// The watcher ends.
    Stop,
}

/// The watcher's answer to the log stream: one snapshot attempt per line,
/// and the end of the watcher with the end of the stream.
pub fn watch(event: LogEvent) -> (cmd: WatchCommand)
    ensures
        cmd == (match event {
            LogEvent::Line(line) => WatchCommand::LogAndAssemble { line },
            LogEvent::Eof => WatchCommand::Stop,
        }),
{
    match event {
        LogEvent::Line(line) => WatchCommand::LogAndAssemble { line },
        LogEvent::Eof => WatchCommand::Stop,
    }
}

} // verus!
