//! The command line as parsed values, and the readiness check that decides
//! whether and how the container runtime is made ready before a command runs.

use crate::utils::app_config::{
    effective, first_unsound_layer, layer_settings, text_of, AppConfig,
};
use crate::utils::failure::{Failure, NetworkStep};
use crate::utils::path::{find_project_root, is_root_of, unmarked, DirProbe, ProjectRoot};
use vstd::prelude::*;
use vstd::string::*;

verus! {

/// The name of the network that the services of all projects share.
pub const NETWORK_NAME: &'static str = "dev-cli-web";

/// The parsed command line.
#[derive(Debug)]
pub struct Cli {
    /// The service to run a command in.
    pub service: Option<String>,
    /// Whether to stay away from the internet.
    pub offline: Option<bool>,
    /// The subcommand, if one was given.
    pub command: Option<Commands>,
    /// The words that were given without a subcommand.
    pub exec_command: Vec<String>,
}

/// The subcommands.
#[derive(Debug, Clone, PartialEq)]
pub enum Commands {
    /// Set up a new project from a template.
    Init,
    /// Start the project's services.
    Start,
    /// Stop and remove the project's containers.
    Stop { remove_data: bool },
    /// Stop, remove and start the project again.
    Restart,
    /// Stop all projects and the shared containers.
    Poweroff,
    /// Run a command in the container of a service.
    Exec { service: Option<String>, user: Option<String>, command: Vec<String> },
    /// Run a command that the configuration defines.
    Run { command: Vec<String> },
    /// Open a shell in the container of a service.
    Shell,
    /// Open the project's address in the browser.
    Launch,
    /// Show the state of the project's containers.
    Status,
    /// Show the state of all projects.
    GlobalStatus,
}

impl Commands {
    /// Whether the command belongs to those that need a live container
    /// runtime: all but `Init` and `Launch`.
    pub open spec fn needs_runtime(self) -> bool {
        ||| self is Start
        ||| self is Stop
        ||| self is Restart
        ||| self is Poweroff
        ||| self is Exec
        ||| self is Run
        ||| self is Shell
        ||| self is Status
        ||| self is GlobalStatus
    }

    /// Whether the command needs a live container runtime.
    pub fn requires_docker(&self) -> (needed: bool)
        ensures
            needed == self.needs_runtime(),
    {
        match self {
            Commands::Start
            | Commands::Stop { .. }
            | Commands::Restart
            | Commands::Poweroff
            | Commands::Exec { .. }
            | Commands::Run { .. }
            | Commands::Shell
            | Commands::Status
            | Commands::GlobalStatus => true,
            _ => false,
        }
    }

    /// The name of the subcommand.
    pub open spec fn name_text(self) -> Seq<char> {
        match self {
            Commands::Init => "Init"@,
            Commands::Start => "Start"@,
            Commands::Stop { .. } => "Stop"@,
            Commands::Restart => "Restart"@,
            Commands::Poweroff => "Poweroff"@,
            Commands::Exec { .. } => "Exec"@,
            Commands::Run { .. } => "Run"@,
            Commands::Shell => "Shell"@,
            Commands::Launch => "Launch"@,
            Commands::Status => "Status"@,
            Commands::GlobalStatus => "GlobalStatus"@,
        }
    }

    /// The name of the subcommand.
    pub fn name(&self) -> (s: &'static str)
        ensures
            s@ == self.name_text(),
    {
        match self {
            Commands::Init => "Init",
            Commands::Start => "Start",
            Commands::Stop { .. } => "Stop",
            Commands::Restart => "Restart",
            Commands::Poweroff => "Poweroff",
            Commands::Exec { .. } => "Exec",
            Commands::Run { .. } => "Run",
            Commands::Shell => "Shell",
            Commands::Launch => "Launch",
            Commands::Status => "Status",
            Commands::GlobalStatus => "GlobalStatus",
        }
    }
}

/// Whether a command line needs a live container runtime. With a subcommand
/// the subcommand decides, whatever words come with it; without one the
/// runtime is needed if and only if words were given.
pub open spec fn runtime_needed(command: Option<Commands>, free_words: nat) -> bool {
    match command {
        Some(c) => c.needs_runtime(),
        None => free_words > 0,
    }
}

/// Whether the command line needs a live container runtime.
pub fn is_docker_required(command: &Option<Commands>, exec_command: &Vec<String>) -> (needed: bool)
    ensures
        needed == runtime_needed(*command, exec_command@.len()),
{
    match command {
        Some(command) => command.requires_docker(),
        None => exec_command.len() > 0,
    }
}

/// Every subcommand but `Init` and `Launch` needs the runtime, and words
/// that come with a subcommand change nothing about it. Without a
/// subcommand the runtime is needed exactly when words were given, so the
/// empty command line does not need it.
pub proof fn lemma_runtime_gate(command: Commands, free_words: nat)
    ensures
        command.needs_runtime() <==> !(command is Init) && !(command is Launch),
        runtime_needed(Some(command), free_words) == command.needs_runtime(),
        runtime_needed(None, free_words) == (free_words > 0),
        !runtime_needed(Some(Commands::Init), free_words),
        !runtime_needed(Some(Commands::Launch), free_words),
        !runtime_needed(None, 0),
{
}

/// What is asked of the container runtime.
#[derive(Clone, Copy, Debug, PartialEq, Eq)]
pub enum RuntimeRequest {
    /// Whether the runtime answers at all.
    Ping,
    /// The networks whose name matches `name`.
    ListNetworks { name: &'static str },
    /// A new network called `name`, with default options.
    CreateNetwork { name: &'static str },
}

/// What came back about the shared network; a failure comes with its cause.
#[derive(Debug, PartialEq, Eq)]
pub enum NetworkReport {
    /// How many networks the listing found.
    Listed(Result<usize, String>),
    /// Whether the network was created.
    Created(Result<(), String>),
}

/// What the container runtime answered; a failure comes with its cause.
#[derive(Debug, PartialEq, Eq)]
pub enum RuntimeReply {
    /// The answer to a ping.
    Pong(Result<String, String>),
    /// The answer to a request about the shared network.
    Network(NetworkReport),
}

/// What the readiness check does next.
#[derive(Debug, PartialEq, Eq)]
pub enum GateStep {
    /// Put this request to the runtime and come back with its reply.
    Ask(RuntimeRequest),
    /// The runtime is ready.
    Ready,
    /// The run ends here.
    Fatal(Failure),
}

/// Does nothing: the machine is taken as it is found.
pub fn check_and_setup_system() {
}

/// What a ping shows: the runtime's answer, or that the runtime is not there.
pub open spec fn ping_outcome(ping: Result<String, String>) -> Result<String, Failure> {
    match ping {
        Ok(answer) => Ok(answer),
        Err(reason) => Err(Failure::RuntimeUnavailable { reason }),
    }
}

/// Judges the answer to a ping: the runtime's own answer is handed on, and no
/// answer means that the runtime is unavailable.
pub fn docker_running(ping: Result<String, String>) -> (r: Result<String, Failure>)
    ensures
        r == ping_outcome(ping),
{
    match ping {
        Ok(answer) => Ok(answer),
        Err(reason) => Err(Failure::RuntimeUnavailable { reason }),
    }
}

/// What follows a report about the shared network: a listing without any
/// network asks for the network to be made, a listing with one and a
/// creation that worked leave the runtime ready, and a request that failed
/// ends the run.
pub open spec fn network_step(report: NetworkReport) -> GateStep {
    match report {
        NetworkReport::Listed(Ok(found)) => if found == 0 {
            GateStep::Ask(RuntimeRequest::CreateNetwork { name: NETWORK_NAME })
        } else {
            GateStep::Ready
        },
        NetworkReport::Listed(Err(reason)) => GateStep::Fatal(
            Failure::NetworkSetup { step: NetworkStep::List, reason },
        ),
        NetworkReport::Created(Ok(_)) => GateStep::Ready,
        NetworkReport::Created(Err(reason)) => GateStep::Fatal(
            Failure::NetworkSetup { step: NetworkStep::Create, reason },
        ),
    }
}

/// Decides what follows a report about the shared network.
pub fn check_and_setup_docker(report: NetworkReport) -> (step: GateStep)
    ensures
        step == network_step(report),
{
    match report {
        NetworkReport::Listed(Ok(found)) => {
            if found == 0 {
                GateStep::Ask(RuntimeRequest::CreateNetwork { name: NETWORK_NAME })
            } else {
                GateStep::Ready
            }
        },
        NetworkReport::Listed(Err(reason)) => GateStep::Fatal(
            Failure::NetworkSetup { step: NetworkStep::List, reason },
        ),
        NetworkReport::Created(Ok(_)) => GateStep::Ready,
        NetworkReport::Created(Err(reason)) => GateStep::Fatal(
            Failure::NetworkSetup { step: NetworkStep::Create, reason },
        ),
    }
}

/// The step of the readiness check that follows `reply`; `None` stands for
/// the start, when nothing was asked yet.
pub open spec fn gate_step(reply: Option<RuntimeReply>) -> GateStep {
    match reply {
        None => GateStep::Ask(RuntimeRequest::Ping),
        Some(RuntimeReply::Pong(ping)) => match ping_outcome(ping) {
            Ok(_) => GateStep::Ask(RuntimeRequest::ListNetworks { name: NETWORK_NAME }),
            Err(failure) => GateStep::Fatal(failure),
        },
        Some(RuntimeReply::Network(report)) => network_step(report),
    }
}

/// Advances the readiness check by one step: it starts with a ping, goes on
/// to list the shared network, creates it where none was found, and stops at
/// the first request that fails.
pub fn ensure_runtime_ready(reply: Option<RuntimeReply>) -> (step: GateStep)
    ensures
        step == gate_step(reply),
{
    match reply {
        None => GateStep::Ask(RuntimeRequest::Ping),
        Some(RuntimeReply::Pong(ping)) => match docker_running(ping) {
            Ok(_) => GateStep::Ask(RuntimeRequest::ListNetworks { name: NETWORK_NAME }),
            Err(failure) => GateStep::Fatal(failure),
        },
        Some(RuntimeReply::Network(report)) => check_and_setup_docker(report),
    }
}

/// The readiness check asks for a network to be created in one case only:
/// after a listing that found none. So a check that runs while the network
/// exists creates nothing, however often it runs.
pub proof fn lemma_network_is_created_only_when_missing(reply: Option<RuntimeReply>)
    ensures
        gate_step(reply) matches GateStep::Ask(RuntimeRequest::CreateNetwork { .. }) <==> reply
            == Some(RuntimeReply::Network(NetworkReport::Listed(Ok::<usize, String>(0)))),
        forall|found: usize|
            found > 0 ==> #[trigger] gate_step(
                Some(RuntimeReply::Network(NetworkReport::Listed(Ok(found)))),
            ) == GateStep::Ready,
{
}

/// Finds the project root among the directories from the working directory
/// (first) up to the filesystem root (last): the nearest one that holds a
/// marker file. That no directory holds one is a failure.
pub fn get_project_root(levels: &Vec<DirProbe>) -> (r: Result<ProjectRoot, Failure>)
    ensures
        r is Err <==> unmarked(levels@),
        match r {
            Ok(root) => is_root_of(levels@, root),
            Err(failure) => failure == Failure::Resolution,
        },
{
    match find_project_root(levels) {
        Some(root) => {
            assert(levels@[root.level as int].marked());
            Ok(root)
        },
        None => Err(Failure::Resolution),
    }
}

/// Reads the configuration of a project from the texts of its three files,
/// where there are files, and merges them into the settings in force. The
/// first file, from the global to the local one, that is no mapping ends the
/// reading with a failure that names its layer.
pub fn get_app_config(global: Option<&str>, distributed: Option<&str>, local: Option<&str>) -> (r:
    Result<AppConfig, Failure>)
    ensures
        match first_unsound_layer(text_of(global), text_of(distributed), text_of(local)) {
            Some(layer) => r matches Err(failure) && failure.blames(layer),
            None => r matches Ok(config) && config@ == effective(
                layer_settings(text_of(global)),
                layer_settings(text_of(distributed)),
                layer_settings(text_of(local)),
            ),
        },
{
    AppConfig::merge_from_project_root(global, distributed, local)
}

} // verus!
