//! The compose tool as seen from the core: the topology that it resolves, the
//! command lines that it is run with, and the judgement of how a run ended.

use crate::utils::failure::{Failure, ToolExit, ToolFault};
use crate::utils::name_map::{is_least, least_name, NameMap};
use crate::utils::text::{join, joined, parent_of, path_parent, words};
use vstd::prelude::*;
use vstd::string::*;
use vstd::utf8::*;

verus! {

/// The name of the compose file in the project root.
pub const COMPOSE_FILE_NAME: &'static str = "compose.yml";

/// A condition for a service to count as started.
#[derive(Debug)]
pub struct ServiceDependsOn {
    pub condition: String,
    pub required: bool,
}

/// A port of a service that the host publishes.
#[derive(Debug)]
pub struct ServicePorts {
    pub mode: String,
    pub target: u16,
    pub published: String,
    pub protocol: String,
}

/// A secret that a service reads.
#[derive(Debug)]
pub struct ServiceSecret {
    pub source: String,
}

/// How a bind mount treats a missing host path.
#[derive(Debug)]
pub struct ServiceVolumeBind {
    pub create_host_path: bool,
}

/// A volume or host path that a service mounts.
#[derive(Debug)]
pub struct ServiceVolume {
    pub volume_type: String,
    pub source: String,
    pub target: String,
    pub bind: Option<ServiceVolumeBind>,
    pub volume: Option<NameMap<String>>,
}

/// One service of the project.
#[derive(Debug)]
pub struct Service {
    pub container_name: Option<String>,
    pub depends_on: Option<NameMap<ServiceDependsOn>>,
    pub environment: Option<NameMap<String>>,
    pub image: Option<String>,
    pub init: Option<bool>,
    pub labels: Option<NameMap<String>>,
    pub networks: Option<NameMap<Option<String>>>,
    pub ports: Option<Vec<ServicePorts>>,
    pub secrets: Option<Vec<ServiceSecret>>,
    pub volumes: Option<Vec<ServiceVolume>>,
}

/// A network of the project.
#[derive(Debug)]
pub struct Network {
    pub name: String,
    pub external: Option<bool>,
}

/// A named volume of the project.
#[derive(Debug)]
pub struct Volume {
    pub name: String,
    pub driver: Option<String>,
    pub external: Option<bool>,
}

/// A secret of the project.
#[derive(Debug)]
pub struct Secret {
    pub name: String,
    pub file: String,
}

/// The topology that the compose tool resolves: the project's name and its
/// services, networks, volumes and secrets, each kind keyed by name.
#[derive(Debug)]
pub struct Config {
    pub name: String,
    pub services: NameMap<Service>,
    pub networks: Option<NameMap<Network>>,
    pub volumes: Option<NameMap<Volume>>,
    pub secrets: Option<NameMap<Secret>>,
}

impl Config {
    /// The names of the project's services.
    pub open spec fn service_names(&self) -> Set<Seq<char>> {
        self.services@.dom()
    }

    /// The service that commands go to when none is named: the one whose
    /// name sorts first, or none where the project has no service.
    pub fn default_service(&self) -> (r: Option<&String>)
        ensures
            match r {
                Some(name) => is_least(self.service_names(), name@) && name@ == least_name(
                    self.service_names(),
                ),
                None => self.service_names() == Set::<Seq<char>>::empty(),
            },
    {
        match self.services.first() {
            Some((name, _)) => Some(name),
            None => {
                assert(self.service_names() =~= Set::<Seq<char>>::empty());
                None
            },
        }
    }
}

/// One run of an outside program.
#[derive(Debug)]
pub struct Invocation {
    /// The program to start.
    pub program: String,
    /// Its arguments, in order.
    pub args: Vec<String>,
    /// The file in whose directory the program runs.
    pub beside: String,
}

impl Invocation {
    /// The directory that the program runs in: the one that holds the file
    /// `beside`. A file without a directory above it leaves the program
    /// nowhere to run.
    pub fn working_dir(&self) -> (dir: Option<String>)
        ensures
            match dir {
                Some(dir) => parent_of(self.beside@) == Some(dir@),
                None => parent_of(self.beside@) is None,
            },
    {
        path_parent(self.beside.as_str())
    }

    /// The invocation starts `program` with `args` in the directory of `beside`.
    pub open spec fn runs(&self, program: Seq<char>, args: Seq<Seq<char>>, beside: Seq<char>) -> bool {
        &&& self.program@ == program
        &&& words(self.args@) == args
        &&& self.beside@ == beside
    }
}

/// The arguments that run `command` in the container of `service`, as `user`
/// where one is given.
pub open spec fn exec_args(
    service: Seq<char>,
    user: Option<Seq<char>>,
    command: Seq<Seq<char>>,
) -> Seq<Seq<char>> {
    let as_user = match user {
        Some(user) => seq!["--user"@, user],
        None => Seq::<Seq<char>>::empty(),
    };
    seq!["compose"@, "exec"@] + as_user + seq![service] + command
}

/// The arguments that start the project's services, in the background where
/// `detached` is set.
pub open spec fn up_args(detached: bool) -> Seq<Seq<char>> {
    if detached {
        seq!["compose"@, "up"@, "--detach"@]
    } else {
        seq!["compose"@, "up"@]
    }
}

/// The arguments that stop the project's services, and remove their volumes
/// where `remove_volumes` is set.
pub open spec fn down_args(remove_volumes: bool) -> Seq<Seq<char>> {
    if remove_volumes {
        seq!["compose"@, "down"@, "--volumes"@]
    } else {
        seq!["compose"@, "down"@]
    }
}

/// The service that a command goes to: the one that was named, or the
/// project's service whose name sorts first.
pub open spec fn exec_target(service: Option<String>, config: &Config) -> Seq<char> {
    match service {
        Some(service) => service@,
        None => least_name(config.service_names()),
    }
}

/// The path of the compose file of the project at `project_root`.
pub fn compose_file(project_root: &str) -> (path: String)
    ensures
        path@ == joined(project_root@, COMPOSE_FILE_NAME@),
{
    join(project_root, COMPOSE_FILE_NAME)
}

/// The error of `String::from_utf8`.
#[verifier::external_type_specification]
#[verifier::external_body]
pub struct ExFromUtf8Error(std::string::FromUtf8Error);

/// `String::from_utf8`: the text that `bytes` encode, which std returns if
/// and only if the bytes are well-formed UTF-8.
#[verifier::external_body]
fn text_from_utf8(bytes: Vec<u8>) -> (r: Result<String, std::string::FromUtf8Error>)
    ensures
        r is Ok <==> valid_utf8(bytes@),
        r matches Ok(text) ==> text@ == decode_utf8(bytes@),
{
    String::from_utf8(bytes)
}

/// The `Display` text of a `FromUtf8Error`; nothing is claimed of it.
#[verifier::external_body]
fn utf8_error_text(error: &std::string::FromUtf8Error) -> String {
    error.to_string()
}

/// What the output of the tool's `config` run amounts to: its text, or the
/// fault that kept the tool from starting or its output from being text.
pub open spec fn rendering_is(output: Result<Vec<u8>, String>, r: Result<String, Failure>) -> bool {
    match output {
        Err(reason) => r == Err::<String, Failure>(
            Failure::ComposeTool { fault: ToolFault::NotStarted { reason } },
        ),
        Ok(bytes) => if valid_utf8(bytes@) {
            r matches Ok(text) && text@ == decode_utf8(bytes@)
        } else {
            r matches Err(Failure::ComposeTool { fault: ToolFault::NotText { .. } })
        },
    }
}

/// How a run of the tool is judged: exit code zero is success, any other end
/// and a tool that did not start are failures of the tool.
pub open spec fn completion(run: Result<ToolExit, String>) -> Result<(), Failure> {
    match run {
        Ok(status) => if status.is_success() {
            Ok(())
        } else {
            Err(Failure::ComposeTool { fault: ToolFault::Exit { status } })
        },
        Err(reason) => Err(Failure::ComposeTool { fault: ToolFault::NotStarted { reason } }),
    }
}

/// The compose tool on one project, known by the project's compose file.
#[derive(Debug)]
pub struct DockerCompose {
    file: String,
}

impl DockerCompose {
    /// The path of the compose file.
    pub closed spec fn path(&self) -> Seq<char> {
        self.file@
    }

    /// The compose tool on the project whose compose file is `file`.
    pub fn new(file: String) -> (compose: Self)
        ensures
            compose.path() == file@,
    {
        Self { file }
    }

    /// The path of the compose file.
    pub fn file(&self) -> (file: &String)
        ensures
            file@ == self.path(),
    {
        &self.file
    }

    /// The compose tool on the project whose compose file is `file`, or the
    /// failure to report where no file is there.
    pub fn open(file: String, is_file: bool) -> (r: Result<Self, Failure>)
        ensures
            is_file ==> (r matches Ok(compose) && compose.path() == file@),
            !is_file ==> r == Err::<Self, Failure>(Failure::ComposeFileMissing { path: file }),
    {
        if is_file {
            Ok(Self::new(file))
        } else {
            Err(Failure::ComposeFileMissing { path: file })
        }
    }

    /// The run that makes the tool print the resolved compose document.
    pub fn config(&self) -> (run: Invocation)
        ensures
            run.runs("sh"@, seq!["-c"@, "docker compose config"@], self.path()),
    {
        let mut args: Vec<String> = Vec::new();
        args.push("-c".to_owned());
        args.push("docker compose config".to_owned());
        assert(words(args@) =~= seq!["-c"@, "docker compose config"@]);
        Invocation { program: "sh".to_owned(), args, beside: self.file.clone() }
    }

    /// Judges what the tool's `config` run printed: well-formed UTF-8 is
    /// handed on as text.
    pub fn rendered(output: Result<Vec<u8>, String>) -> (r: Result<String, Failure>)
        ensures
            rendering_is(output, r),
    {
        match output {
            Err(reason) => Err(Failure::ComposeTool { fault: ToolFault::NotStarted { reason } }),
            Ok(bytes) => match text_from_utf8(bytes) {
                Ok(text) => Ok(text),
                Err(error) => Err(
                    Failure::ComposeTool {
                        fault: ToolFault::NotText { reason: utf8_error_text(&error) },
                    },
                ),
            },
        }
    }

    /// Judges the attempt to read the rendered document as a topology: a
    /// document that cannot be read is a failure of the tool.
    pub fn topology(parsed: Result<Config, String>) -> (r: Result<Config, Failure>)
        ensures
            match parsed {
                Ok(config) => r == Ok::<Config, Failure>(config),
                Err(reason) => r == Err::<Config, Failure>(
                    Failure::ComposeTool { fault: ToolFault::Unreadable { reason } },
                ),
            },
    {
        match parsed {
            Ok(config) => Ok(config),
            Err(reason) => Err(Failure::ComposeTool { fault: ToolFault::Unreadable { reason } }),
        }
    }

    /// The run that executes `command` in the container of a service: of
    /// `service` where it is given, else of the service whose name sorts
    /// first. A `user` is passed on with `--user`.
    pub fn exec(
        &self,
        service: Option<String>,
        user: Option<String>,
        command: Vec<String>,
        config: &Config,
    ) -> (run: Invocation)
        requires
            service is None ==> config.service_names() != Set::<Seq<char>>::empty(),
        ensures
            run.runs(
                "docker"@,
                exec_args(
                    exec_target(service, config),
                    match user {
                        Some(user) => Some(user@),
                        None => None,
                    },
                    words(command@),
                ),
                self.path(),
            ),
    {
        let target = match service {
            Some(service) => service,
            None => match config.default_service() {
                Some(first) => first.clone(),
                None => vstd::pervasive::unreached(),
            },
        };
        let mut args: Vec<String> = Vec::new();
        args.push("compose".to_owned());
        args.push("exec".to_owned());
        match user {
            Some(user) => {
                args.push("--user".to_owned());
                args.push(user);
            },
            None => {},
        }
        args.push(target);
        let mut rest = command;
        args.append(&mut rest);
        assert(words(args@) =~= exec_args(
            exec_target(service, config),
            match user {
                Some(user) => Some(user@),
                None => None,
            },
            words(command@),
        ));
        Invocation { program: "docker".to_owned(), args, beside: self.file.clone() }
    }

    /// The run that starts the project's services.
    pub fn up(&self, detached: bool) -> (run: Invocation)
        ensures
            run.runs("docker"@, up_args(detached), self.path()),
    {
        let mut args: Vec<String> = Vec::new();
        args.push("compose".to_owned());
        args.push("up".to_owned());
        if detached {
            args.push("--detach".to_owned());
        }
        assert(words(args@) =~= up_args(detached));
        Invocation { program: "docker".to_owned(), args, beside: self.file.clone() }
    }

    /// The run that stops the project's services.
    pub fn down(&self, remove_volumes: bool) -> (run: Invocation)
        ensures
            run.runs("docker"@, down_args(remove_volumes), self.path()),
    {
        let mut args: Vec<String> = Vec::new();
        args.push("compose".to_owned());
        args.push("down".to_owned());
        if remove_volumes {
            args.push("--volumes".to_owned());
        }
        assert(words(args@) =~= down_args(remove_volumes));
        Invocation { program: "docker".to_owned(), args, beside: self.file.clone() }
    }

    /// Judges how a run of the tool ended.
    pub fn completed(run: Result<ToolExit, String>) -> (r: Result<(), Failure>)
        ensures
            r == completion(run),
    {
        match run {
            Ok(status) => {
                if status.success() {
                    Ok(())
                } else {
                    Err(Failure::ComposeTool { fault: ToolFault::Exit { status } })
                }
            },
            Err(reason) => Err(Failure::ComposeTool { fault: ToolFault::NotStarted { reason } }),
        }
    }
}

} // verus!
