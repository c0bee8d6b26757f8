//! What ends a run early, what the user is told about it, and the status the
//! process then leaves with.

use crate::utils::text::{decimal_text, push_decimal, push_signed_decimal, signed_decimal_text};
use crate::{CONFIG_FILE_NAME_LOCAL, CONFIG_FILE_NAME_PROJECT};
use vstd::prelude::*;
use vstd::string::*;

verus! {

/// One of the three sources of configuration, from the weakest to the strongest.
#[derive(Clone, Copy, Debug, PartialEq, Eq, Structural)]
pub enum Layer {
    /// The user's configuration, shared by all projects.
    Global,
    /// The configuration that the project distributes.
    Distributed,
    /// The developer's own configuration of the project.
    Local,
}

/// A request to the container runtime about the shared network.
#[derive(Clone, Copy, Debug, PartialEq, Eq, Structural)]
pub enum NetworkStep {
    /// Listing the networks of the reserved name.
    List,
    /// Creating the network of the reserved name.
    Create,
}

/// How a run of the compose tool ended.
#[derive(Clone, Copy, Debug, PartialEq, Eq, Structural)]
pub enum ToolExit {
    /// The tool exited with this code.
    Exited(u32),
    /// The tool was ended by the signal of this number.
    Signaled(u8),
    /// The tool ended in a way that neither a code nor a signal describes.
    Other(i32),
    /// The tool has ended and its status is not known.
    Undetermined,
}

/// What went wrong with a run of the compose tool.
#[derive(Debug, PartialEq, Eq)]
pub enum ToolFault {
    /// The tool could not be started.
    NotStarted { reason: String },
    /// The tool printed bytes that are no UTF-8 text.
    NotText { reason: String },
    /// The tool printed text that is no compose document.
    Unreadable { reason: String },
    /// The tool ran and did not succeed.
    Exit { status: ToolExit },
}

/// A condition that ends the run.
#[derive(Debug, PartialEq, Eq)]
pub enum Failure {
    /// No directory from the working directory upward holds a marker file.
    Resolution,
    /// A configuration file is present and is no mapping.
    Config { layer: Layer, reason: String },
    /// The container runtime does not answer.
    RuntimeUnavailable { reason: String },
    /// The shared network could not be listed or created.
    NetworkSetup { step: NetworkStep, reason: String },
    /// The project has no compose file at the expected path.
    ComposeFileMissing { path: String },
    /// The compose tool failed.
    ComposeTool { fault: ToolFault },
    /// The command is known and not built yet.
    Unimplemented { command: String },
}

impl Layer {
    /// The word that names the layer to the user.
    pub open spec fn label_text(self) -> Seq<char> {
        match self {
            Layer::Global => "global"@,
            Layer::Distributed => "project"@,
            Layer::Local => "local"@,
        }
    }

    /// The word that names the layer to the user.
    pub fn label(&self) -> (s: &'static str)
        ensures
            s@ == self.label_text(),
    {
        match self {
            Layer::Global => "global",
            Layer::Distributed => "project",
            Layer::Local => "local",
        }
    }
}

impl ToolExit {
    /// Whether the tool exited with code zero.
    pub open spec fn is_success(self) -> bool {
        self == ToolExit::Exited(0)
    }

    /// Whether the tool exited with code zero.
    pub fn success(&self) -> (b: bool)
        ensures
            b == self.is_success(),
    {
        match self {
            ToolExit::Exited(code) => *code == 0,
            _ => false,
        }
    }

    /// The status as it is shown to the user.
    pub open spec fn text(self) -> Seq<char> {
        match self {
            ToolExit::Exited(code) => "Exited("@ + decimal_text(code as nat) + ")"@,
            ToolExit::Signaled(signal) => "Signaled("@ + decimal_text(signal as nat) + ")"@,
            ToolExit::Other(status) => "Other("@ + signed_decimal_text(status as int) + ")"@,
            ToolExit::Undetermined => "Undetermined"@,
        }
    }

    /// Appends the status, as it is shown to the user, to `out`.
    pub fn push_text(&self, out: &mut String)
        ensures
            final(out)@ == old(out)@ + self.text(),
    {
        let ghost before = out@;
        match self {
            ToolExit::Exited(code) => {
                out.append("Exited(");
                push_decimal(out, *code as u64);
                out.append(")");
                assert(out@ =~= before + self.text());
            },
            ToolExit::Signaled(signal) => {
                out.append("Signaled(");
                push_decimal(out, *signal as u64);
                out.append(")");
                assert(out@ =~= before + self.text());
            },
            ToolExit::Other(status) => {
                out.append("Other(");
                push_signed_decimal(out, *status as i64);
                out.append(")");
                assert(out@ =~= before + self.text());
            },
            ToolExit::Undetermined => {
                out.append("Undetermined");
            },
        }
    }
}

impl ToolFault {
    /// What the user is told about the fault.
    pub open spec fn message_text(self) -> Seq<char> {
        match self {
            ToolFault::NotStarted { reason } => "Docker doesn't seem to be turned on ("@ + reason@
                + ")"@,
            ToolFault::NotText { reason } => "Error: "@ + reason@,
            ToolFault::Unreadable { reason } => "Could not read the docker compose file ("@
                + reason@ + ")"@,
            ToolFault::Exit { status } => "Error: "@ + status.text(),
        }
    }

    /// What the user is told about the fault.
    pub fn message(&self) -> (s: String)
        ensures
            s@ == self.message_text(),
    {
        match self {
            ToolFault::NotStarted { reason } => {
                let mut s = "Docker doesn't seem to be turned on (".to_owned();
                s.append(reason.as_str());
                s.append(")");
                s
            },
            ToolFault::NotText { reason } => {
                let mut s = "Error: ".to_owned();
                s.append(reason.as_str());
                s
            },
            ToolFault::Unreadable { reason } => {
                let mut s = "Could not read the docker compose file (".to_owned();
                s.append(reason.as_str());
                s.append(")");
                s
            },
            ToolFault::Exit { status } => {
                let mut s = "Error: ".to_owned();
                status.push_text(&mut s);
                s
            },
        }
    }
}

/// The status that the process leaves with after a failure: the code for an
/// error of the operating system.
pub open spec fn failure_status() -> u8 {
    71
}

/// The status that the process leaves with after a run without failure.
pub open spec fn success_status() -> u8 {
    0
}

/// `sysexits::ExitCode::OsErr` as a number. The crate documents the variant
/// as 71 and converts it to `u8` by a plain cast.
#[verifier::external_body]
fn os_error_status() -> (code: u8)
    ensures
        code == failure_status(),
{
    u8::from(sysexits::ExitCode::OsErr)
}

/// `sysexits::ExitCode::Ok` as a number. The crate documents the variant as 0
/// and converts it to `u8` by a plain cast.
#[verifier::external_body]
fn ok_status() -> (code: u8)
    ensures
        code == success_status(),
{
    u8::from(sysexits::ExitCode::Ok)
}

impl Failure {
    /// The failure says that the file of `layer` is no mapping.
    pub open spec fn blames(self, layer: Layer) -> bool {
        self matches Failure::Config { layer: blamed, .. } && blamed == layer
    }

    /// What the user is told about the failure.
    pub open spec fn message_text(self) -> Seq<char> {
        match self {
            Failure::Resolution => "Could not find a project root. Please add a "@
                + CONFIG_FILE_NAME_LOCAL@ + " or "@ + CONFIG_FILE_NAME_PROJECT@
                + " to your project root"@,
            Failure::Config { layer, reason } => "error loading app config ("@ + layer.label_text()
                + "): "@ + reason@,
            Failure::RuntimeUnavailable { reason } => "Docker doesn't seem to be turned on ("@
                + reason@ + ")"@,
            Failure::NetworkSetup { step, reason } => match step {
                NetworkStep::List => "Could not list networks: "@ + reason@,
                NetworkStep::Create => "Could not create the network 'dev-cli-web': "@ + reason@,
            },
            Failure::ComposeFileMissing { path } =>
                "Could not find a docker compose file in the project root ("@ + path@ + ")"@,
            Failure::ComposeTool { fault } => fault.message_text(),
            Failure::Unimplemented { command } => "Command not implemented yet: "@ + command@,
        }
    }

    /// What the user is told about the failure.
    pub fn message(&self) -> (s: String)
        ensures
            s@ == self.message_text(),
    {
        match self {
            Failure::Resolution => {
                let mut s = "Could not find a project root. Please add a ".to_owned();
                s.append(CONFIG_FILE_NAME_LOCAL);
                s.append(" or ");
                s.append(CONFIG_FILE_NAME_PROJECT);
                s.append(" to your project root");
                s
            },
            Failure::Config { layer, reason } => {
                let mut s = "error loading app config (".to_owned();
                s.append(layer.label());
                s.append("): ");
                s.append(reason.as_str());
                s
            },
            Failure::RuntimeUnavailable { reason } => {
                let mut s = "Docker doesn't seem to be turned on (".to_owned();
                s.append(reason.as_str());
                s.append(")");
                s
            },
            Failure::NetworkSetup { step, reason } => {
                let mut s = match step {
                    NetworkStep::List => "Could not list networks: ".to_owned(),
                    NetworkStep::Create => "Could not create the network 'dev-cli-web': ".to_owned(),
                };
                s.append(reason.as_str());
                s
            },
            Failure::ComposeFileMissing { path } => {
                let mut s = "Could not find a docker compose file in the project root (".to_owned();
                s.append(path.as_str());
                s.append(")");
                s
            },
            Failure::ComposeTool { fault } => fault.message(),
            Failure::Unimplemented { command } => {
                let mut s = "Command not implemented yet: ".to_owned();
                s.append(command.as_str());
                s
            },
        }
    }

    /// The status that the process leaves with: the same for every failure.
    pub fn exit_code(&self) -> (code: u8)
        ensures
            code == failure_status(),
            code != success_status(),
    {
        os_error_status()
    }
}

/// The status that the process leaves with: that of the failure that ended
/// the run, or success.
pub fn exit_status(outcome: &Result<(), Failure>) -> (code: u8)
    ensures
        code == (if outcome is Ok {
            success_status()
        } else {
            failure_status()
        }),
{
    match outcome {
        Ok(_) => ok_status(),
        Err(failure) => failure.exit_code(),
    }
}

} // verus!
