//! The dispatcher: which branch a command line is sent down, what that
//! branch makes the compose tool do, and how far a run has come.

use crate::utils::docker_compose::{
    down_args, exec_args, exec_target, up_args, Config, DockerCompose, Invocation,
};
use crate::utils::failure::{failure_status, success_status, Failure};
use crate::utils::general::Commands;
use crate::utils::text::words;
use vstd::prelude::*;
use vstd::string::*;

verus! {

/// What a command line is dispatched to.
#[derive(Debug)]
pub enum Branch {
    /// Run a command in the container of a service.
    Exec { service: Option<String>, user: Option<String>, command: Vec<String> },
    /// Start the project's services.
    Start,
    /// Stop the project's services.
    Stop { remove_data: bool },
    /// A command that is known and not built yet.
    NotImplemented { subcommand: Commands },
}

/// The branch of a command line: `Exec`, `Start` and `Stop` have their own,
/// words without a subcommand are run in the default service as the default
/// user, and every other subcommand is not built yet.
pub open spec fn branch_of(command: Option<Commands>, exec_command: Vec<String>) -> Branch {
    match command {
        Some(Commands::Exec { service, user, command }) => Branch::Exec { service, user, command },
        Some(Commands::Start) => Branch::Start,
        Some(Commands::Stop { remove_data }) => Branch::Stop { remove_data },
        Some(other) => Branch::NotImplemented { subcommand: other },
        None => Branch::Exec { service: None, user: None, command: exec_command },
    }
}

/// Selects the branch of a command line.
pub fn select(command: Option<Commands>, exec_command: Vec<String>) -> (branch: Branch)
    ensures
        branch == branch_of(command, exec_command),
{
    match command {
        Some(Commands::Exec { service, user, command }) => Branch::Exec { service, user, command },
        Some(Commands::Start) => Branch::Start,
        Some(Commands::Stop { remove_data }) => Branch::Stop { remove_data },
        Some(other) => Branch::NotImplemented { subcommand: other },
        None => Branch::Exec { service: None, user: None, command: exec_command },
    }
}

/// One thing to do on a branch.
#[derive(Debug)]
pub enum Step {
    /// See to it that the shared proxy runs.
    EnsureProxy,
    /// Run the compose tool and wait for it.
    Run(Invocation),
}

/// The branch can be planned against `config`: a command without a named
/// service needs a project that has a service.
pub open spec fn plannable(branch: Branch, config: &Config) -> bool {
    branch matches Branch::Exec { service: None, .. } ==> config.service_names() != Set::<
        Seq<char>,
    >::empty()
}

/// `steps` is one run of the compose tool with `args`, beside `file`.
pub open spec fn is_one_run(steps: Seq<Step>, args: Seq<Seq<char>>, file: Seq<char>) -> bool {
    &&& steps.len() == 1
    &&& steps[0] matches Step::Run(run)
    &&& run.runs("docker"@, args, file)
}

/// `r` is the plan of `branch`: `Exec` runs the command in the service,
/// `Start` sees to the proxy and brings the services up in the background,
/// `Stop` takes them down and removes their data where that was asked for,
/// and a command that is not built yet is a failure that names it.
pub open spec fn is_plan_of(
    branch: Branch,
    compose: &DockerCompose,
    config: &Config,
    r: Result<Vec<Step>, Failure>,
) -> bool {
    match branch {
        Branch::Exec { service, user, command } => r matches Ok(steps) && is_one_run(
            steps@,
            exec_args(
                exec_target(service, config),
                match user {
                    Some(user) => Some(user@),
                    None => None,
                },
                words(command@),
            ),
            compose.path(),
        ),
        Branch::Start => {
            &&& r matches Ok(steps)
            &&& steps@.len() == 2
            &&& steps@[0] is EnsureProxy
            &&& steps@[1] matches Step::Run(run)
            &&& run.runs("docker"@, up_args(true), compose.path())
        },
        Branch::Stop { remove_data } => r matches Ok(steps) && is_one_run(
            steps@,
            down_args(remove_data),
            compose.path(),
        ),
        Branch::NotImplemented { subcommand } => r matches Err(
            Failure::Unimplemented { command: name },
        ) && name@ == subcommand.name_text(),
    }
}

/// Plans a branch: the steps to take, in order, or the failure to report.
pub fn plan(branch: Branch, compose: &DockerCompose, config: &Config) -> (r: Result<
    Vec<Step>,
    Failure,
>)
    requires
        plannable(branch, config),
    ensures
        is_plan_of(branch, compose, config, r),
{
    let mut steps: Vec<Step> = Vec::new();
    match branch {
        Branch::Exec { service, user, command } => {
            steps.push(Step::Run(compose.exec(service, user, command, config)));
            Ok(steps)
        },
        Branch::Start => {
            steps.push(Step::EnsureProxy);
            steps.push(Step::Run(compose.up(true)));
            Ok(steps)
        },
        Branch::Stop { remove_data } => {
            steps.push(Step::Run(compose.down(remove_data)));
            Ok(steps)
        },
        Branch::NotImplemented { subcommand } => Err(
            Failure::Unimplemented { command: subcommand.name().to_owned() },
        ),
    }
}

/// How far a run has come.
#[derive(Clone, Copy, Debug, PartialEq, Eq, Structural)]
pub enum Stage {
    /// Nothing was done yet.
    Idle,
    /// The runtime gate is passed: the runtime is ready or not needed.
    RuntimeChecked,
    /// A branch was selected and its steps are under way.
    Dispatched,
    /// The run is over.
    Done,
}

/// What moves a run on.
#[derive(Debug)]
pub enum Event {
    /// The runtime gate was passed.
    GatePassed,
    /// A branch was selected.
    BranchSelected,
    /// The steps of the branch were all taken.
    Completed,
    /// A failure was raised.
    Failed(Failure),
}

/// The state of a run: its stage and the status that the process would leave
/// with.
#[derive(Clone, Copy, Debug, PartialEq, Eq, Structural)]
pub struct Progress {
    pub stage: Stage,
    pub status: u8,
}

/// The state that `event` leads to. A failure ends the run from any stage
/// with the status of failures; the other events each lead from one stage to
/// the next and change nothing at any other stage; a run that is over stays
/// as it is.
pub open spec fn next(from: Progress, event: Event) -> Progress {
    match (from.stage, event) {
        (Stage::Done, _) => from,
        (_, Event::Failed(_)) => Progress { stage: Stage::Done, status: failure_status() },
        (Stage::Idle, Event::GatePassed) => Progress { stage: Stage::RuntimeChecked, ..from },
        (Stage::RuntimeChecked, Event::BranchSelected) => Progress {
            stage: Stage::Dispatched,
            ..from
        },
        (Stage::Dispatched, Event::Completed) => Progress { stage: Stage::Done, ..from },
        _ => from,
    }
}

/// The number of a stage in the order in which a run goes through them.
pub open spec fn stage_number(stage: Stage) -> nat {
    match stage {
        Stage::Idle => 0,
        Stage::RuntimeChecked => 1,
        Stage::Dispatched => 2,
        Stage::Done => 3,
    }
}

/// The state that a run of `events` ends in, begun at `from`.
pub open spec fn after(from: Progress, events: Seq<Event>) -> Progress
    decreases events.len(),
{
    if events.len() == 0 {
        from
    } else {
        next(after(from, events.drop_last()), events.last())
    }
}

/// The state of a run before anything was done.
pub open spec fn fresh() -> Progress {
    Progress { stage: Stage::Idle, status: success_status() }
}

/// One failure among the events of a run.
pub open spec fn has_failure(events: Seq<Event>) -> bool {
    exists|i: int| 0 <= i < events.len() && #[trigger] events[i] is Failed
}

/// A run never goes back to an earlier stage, and a run that is over stays
/// as it is.
pub proof fn lemma_stages_only_advance(from: Progress, event: Event)
    ensures
        stage_number(next(from, event).stage) >= stage_number(from.stage),
        from.stage == Stage::Done ==> next(from, event) == from,
{
}

/// From the start, a run leaves with the status of failures if a failure
/// was raised before it was over, and with success otherwise.
pub proof fn lemma_status_tells_failure(events: Seq<Event>)
    ensures
        after(fresh(), events).status == failure_status() || after(fresh(), events).status
            == success_status(),
        after(fresh(), events).status == failure_status() ==> has_failure(events) && after(
            fresh(),
            events,
        ).stage == Stage::Done,
        has_failure(events) ==> after(fresh(), events).stage == Stage::Done,
    decreases events.len(),
{
    if events.len() > 0 {
        let front = events.drop_last();
        lemma_status_tells_failure(front);
        if has_failure(front) {
            let i = choose|i: int| 0 <= i < front.len() && #[trigger] front[i] is Failed;
            assert(events[i] is Failed);
        }
        if has_failure(events) {
            let i = choose|i: int| 0 <= i < events.len() && #[trigger] events[i] is Failed;
            if i < front.len() {
                assert(front[i] is Failed);
            }
        }
        if events.last() is Failed {
            assert(events[events.len() - 1] is Failed);
        }
    }
}

/// The dispatcher of one run.
#[derive(Debug)]
pub struct Dispatcher {
    progress: Progress,
}

impl View for Dispatcher {
    type V = Progress;

    closed spec fn view(&self) -> Progress {
        self.progress
    }
}

impl Dispatcher {
    /// The dispatcher of a run that has not begun.
    pub fn new() -> (dispatcher: Self)
        ensures
            dispatcher@ == fresh(),
    {
        Dispatcher { progress: Progress { stage: Stage::Idle, status: 0 } }
    }

    /// How far the run has come.
    pub fn stage(&self) -> (stage: Stage)
        ensures
            stage == self@.stage,
    {
        self.progress.stage
    }

    /// The status that the process leaves with if the run ends as it stands.
    pub fn status(&self) -> (status: u8)
        ensures
            status == self@.status,
    {
        self.progress.status
    }

    /// Moves the run on by `event`.
    pub fn advance(&mut self, event: Event)
        ensures
            final(self)@ == next(old(self)@, event),
    {
        let stage = self.progress.stage;
        match (stage, event) {
            (Stage::Done, _) => {},
            (_, Event::Failed(failure)) => {
                self.progress = Progress { stage: Stage::Done, status: failure.exit_code() };
            },
            (Stage::Idle, Event::GatePassed) => {
                self.progress.stage = Stage::RuntimeChecked;
            },
            (Stage::RuntimeChecked, Event::BranchSelected) => {
                self.progress.stage = Stage::Dispatched;
            },
            (Stage::Dispatched, Event::Completed) => {
                self.progress.stage = Stage::Done;
            },
            _ => {},
        }
    }
}

} // verus!
