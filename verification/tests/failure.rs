use dev_cli::utils::failure::{exit_status, Failure, Layer, NetworkStep, ToolExit, ToolFault};

#[test]
fn no_project_root_message_names_both_marker_files() {
    assert_eq!(
        Failure::Resolution.message(),
        "Could not find a project root. Please add a .dev-cli.yml or .dev-cli.dist.yml to your project root"
    );
}

#[test]
fn config_failure_names_its_layer() {
    let global = Failure::Config { layer: Layer::Global, reason: "bad".to_string() };
    assert_eq!(global.message(), "error loading app config (global): bad");
    let distributed = Failure::Config { layer: Layer::Distributed, reason: "bad".to_string() };
    assert_eq!(distributed.message(), "error loading app config (project): bad");
    let local = Failure::Config { layer: Layer::Local, reason: "worse".to_string() };
    assert_eq!(local.message(), "error loading app config (local): worse");
    assert_eq!(Layer::Global.label(), "global");
    assert_eq!(Layer::Distributed.label(), "project");
    assert_eq!(Layer::Local.label(), "local");
}

#[test]
fn runtime_and_network_failures_carry_their_cause() {
    let down = Failure::RuntimeUnavailable { reason: "no socket".to_string() };
    assert_eq!(down.message(), "Docker doesn't seem to be turned on (no socket)");
    let list = Failure::NetworkSetup { step: NetworkStep::List, reason: "denied".to_string() };
    assert_eq!(list.message(), "Could not list networks: denied");
    let create = Failure::NetworkSetup { step: NetworkStep::Create, reason: "full".to_string() };
    assert_eq!(create.message(), "Could not create the network 'dev-cli-web': full");
}

#[test]
fn compose_failures_say_what_went_wrong() {
    let missing = Failure::ComposeFileMissing { path: "/p/compose.yml".to_string() };
    assert_eq!(
        missing.message(),
        "Could not find a docker compose file in the project root (/p/compose.yml)"
    );
    let not_started = ToolFault::NotStarted { reason: "no such file".to_string() };
    assert_eq!(not_started.message(), "Docker doesn't seem to be turned on (no such file)");
    let not_text = ToolFault::NotText { reason: "invalid utf-8".to_string() };
    assert_eq!(not_text.message(), "Error: invalid utf-8");
    let unreadable = ToolFault::Unreadable { reason: "missing field `name`".to_string() };
    assert_eq!(
        unreadable.message(),
        "Could not read the docker compose file (missing field `name`)"
    );
    let exit = Failure::ComposeTool { fault: ToolFault::Exit { status: ToolExit::Exited(17) } };
    assert_eq!(exit.message(), "Error: Exited(17)");
}

#[test]
fn unimplemented_commands_are_told_apart_from_errors() {
    let failure = Failure::Unimplemented { command: "Shell".to_string() };
    assert_eq!(failure.message(), "Command not implemented yet: Shell");
}

#[test]
fn tool_exit_is_shown_with_its_number() {
    let shown = |status: ToolExit| {
        let mut out = String::new();
        status.push_text(&mut out);
        out
    };
    assert_eq!(shown(ToolExit::Exited(0)), "Exited(0)");
    assert_eq!(shown(ToolExit::Exited(4294967295)), "Exited(4294967295)");
    assert_eq!(shown(ToolExit::Signaled(9)), "Signaled(9)");
    assert_eq!(shown(ToolExit::Other(-3)), "Other(-3)");
    assert_eq!(shown(ToolExit::Other(i32::MIN)), "Other(-2147483648)");
    assert_eq!(shown(ToolExit::Undetermined), "Undetermined");
}

#[test]
fn only_exit_code_zero_is_success() {
    assert!(ToolExit::Exited(0).success());
    assert!(!ToolExit::Exited(1).success());
    assert!(!ToolExit::Signaled(0).success());
    assert!(!ToolExit::Other(0).success());
    assert!(!ToolExit::Undetermined.success());
}

#[test]
fn every_failure_leaves_with_the_same_status() {
    let failures = vec![
        Failure::Resolution,
        Failure::Config { layer: Layer::Local, reason: String::new() },
        Failure::RuntimeUnavailable { reason: String::new() },
        Failure::NetworkSetup { step: NetworkStep::Create, reason: String::new() },
        Failure::ComposeFileMissing { path: String::new() },
        Failure::ComposeTool { fault: ToolFault::Exit { status: ToolExit::Exited(2) } },
        Failure::Unimplemented { command: String::new() },
    ];
    for failure in failures {
        assert_eq!(failure.exit_code(), 71);
        assert_eq!(exit_status(&Err(failure)), 71);
    }
}

#[test]
fn a_run_without_failure_leaves_with_zero() {
    assert_eq!(exit_status(&Ok(())), 0);
}
