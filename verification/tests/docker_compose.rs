use dev_cli::dispatcher::{plan, select, Branch, Dispatcher, Event, Stage, Step};
use dev_cli::utils::docker_compose::{
    compose_file, Config, DockerCompose, Invocation, Service,
};
use dev_cli::utils::failure::{Failure, ToolExit, ToolFault};
use dev_cli::utils::general::Commands;
use dev_cli::utils::name_map::NameMap;

fn service() -> Service {
    Service {
        container_name: None,
        depends_on: None,
        environment: None,
        image: Some("alpine".to_string()),
        init: None,
        labels: None,
        networks: None,
        ports: None,
        secrets: None,
        volumes: None,
    }
}

fn config(names: &[&str]) -> Config {
    let mut services = NameMap::new();
    for name in names {
        services.insert(name.to_string(), service());
    }
    Config { name: "shop".to_string(), services, networks: None, volumes: None, secrets: None }
}

fn words(list: &[&str]) -> Vec<String> {
    list.iter().map(|w| w.to_string()).collect()
}

fn expect(run: &Invocation, program: &str, args: &[&str], beside: &str) {
    assert_eq!(run.program, program);
    assert_eq!(run.args, words(args));
    assert_eq!(run.beside, beside);
}

#[test]
fn the_compose_file_lies_in_the_project_root() {
    assert_eq!(compose_file("/work/shop"), "/work/shop/compose.yml");
    let compose = DockerCompose::new(compose_file("/work/shop/"));
    assert_eq!(compose.file(), "/work/shop/compose.yml");
}

#[test]
fn a_missing_compose_file_is_named() {
    let missing = DockerCompose::open("/work/shop/compose.yml".to_string(), false).unwrap_err();
    assert_eq!(missing, Failure::ComposeFileMissing { path: "/work/shop/compose.yml".to_string() });
    assert!(missing.message().contains("/work/shop/compose.yml"));
    let found = DockerCompose::open("/work/shop/compose.yml".to_string(), true).unwrap();
    assert_eq!(found.file(), "/work/shop/compose.yml");
}

#[test]
fn the_tool_runs_in_the_directory_of_the_compose_file() {
    let compose = DockerCompose::new(compose_file("/work/shop"));
    assert_eq!(compose.up(true).working_dir(), Some("/work/shop".to_string()));
    assert_eq!(compose.config().working_dir(), Some("/work/shop".to_string()));
    let at = |file: &str| DockerCompose::new(file.to_string()).down(false).working_dir();
    assert_eq!(at("/compose.yml"), Some("/".to_string()));
    assert_eq!(at("compose.yml"), Some(String::new()));
    assert_eq!(at("a/b/compose.yml"), Some("a/b".to_string()));
    assert_eq!(at("/work/shop/"), Some("/work".to_string()));
    assert_eq!(at("/"), None);
    assert_eq!(at(""), None);
}

#[test]
fn config_asks_the_tool_for_the_resolved_document() {
    let compose = DockerCompose::new("/work/shop/compose.yml".to_string());
    expect(&compose.config(), "sh", &["-c", "docker compose config"], "/work/shop/compose.yml");
}

#[test]
fn exec_targets_the_first_service_by_name() {
    let compose = DockerCompose::new("/p/compose.yml".to_string());
    let topology = config(&["web", "api", "db"]);
    assert_eq!(topology.default_service(), Some(&"api".to_string()));
    let run = compose.exec(None, None, words(&["ls", "-l"]), &topology);
    expect(&run, "docker", &["compose", "exec", "api", "ls", "-l"], "/p/compose.yml");
}

#[test]
fn exec_runs_the_command_in_the_named_service() {
    let compose = DockerCompose::new("/p/compose.yml".to_string());
    let run = compose.exec(Some("web".to_string()), None, words(&["echo", "hi"]), &config(&["web"]));
    expect(&run, "docker", &["compose", "exec", "web", "echo", "hi"], "/p/compose.yml");
    assert_eq!(DockerCompose::completed(Ok(ToolExit::Exited(0))), Ok(()));
    assert_eq!(
        DockerCompose::completed(Ok(ToolExit::Exited(3))),
        Err(Failure::ComposeTool { fault: ToolFault::Exit { status: ToolExit::Exited(3) } })
    );
}

#[test]
fn exec_passes_the_user_on() {
    let compose = DockerCompose::new("/p/compose.yml".to_string());
    let run = compose.exec(
        Some("php".to_string()),
        Some("www-data".to_string()),
        words(&["composer", "update"]),
        &config(&[]),
    );
    expect(
        &run,
        "docker",
        &["compose", "exec", "--user", "www-data", "php", "composer", "update"],
        "/p/compose.yml",
    );
    let bare = compose.exec(None, Some("root".to_string()), vec![], &config(&["b", "a"]));
    expect(&bare, "docker", &["compose", "exec", "--user", "root", "a"], "/p/compose.yml");
}

#[test]
fn a_project_without_services_has_no_default_service() {
    assert_eq!(config(&[]).default_service(), None);
    assert_eq!(config(&["only"]).default_service(), Some(&"only".to_string()));
    assert_eq!(config(&["b", "B", "a"]).default_service(), Some(&"B".to_string()));
}

#[test]
fn up_and_down_take_their_flags() {
    let compose = DockerCompose::new("/p/compose.yml".to_string());
    expect(&compose.up(true), "docker", &["compose", "up", "--detach"], "/p/compose.yml");
    expect(&compose.up(false), "docker", &["compose", "up"], "/p/compose.yml");
    expect(&compose.down(true), "docker", &["compose", "down", "--volumes"], "/p/compose.yml");
    expect(&compose.down(false), "docker", &["compose", "down"], "/p/compose.yml");
}

#[test]
fn a_run_is_judged_by_how_it_ended() {
    assert_eq!(DockerCompose::completed(Ok(ToolExit::Exited(0))), Ok(()));
    for status in [ToolExit::Exited(1), ToolExit::Signaled(9), ToolExit::Other(0), ToolExit::Undetermined] {
        assert_eq!(
            DockerCompose::completed(Ok(status)),
            Err(Failure::ComposeTool { fault: ToolFault::Exit { status } })
        );
    }
    assert_eq!(
        DockerCompose::completed(Err("not found".to_string())),
        Err(Failure::ComposeTool { fault: ToolFault::NotStarted { reason: "not found".to_string() } })
    );
}

#[test]
fn rendered_output_must_be_text() {
    assert_eq!(
        DockerCompose::rendered(Ok("name: shop\nservices: {}\n".as_bytes().to_vec())),
        Ok("name: shop\nservices: {}\n".to_string())
    );
    assert_eq!(DockerCompose::rendered(Ok("日本 é".as_bytes().to_vec())), Ok("日本 é".to_string()));
    assert_eq!(DockerCompose::rendered(Ok(vec![])), Ok(String::new()));
    match DockerCompose::rendered(Ok(vec![b'a', 0xff, b'b'])) {
        Err(Failure::ComposeTool { fault: ToolFault::NotText { reason } }) => {
            assert!(reason.contains("utf-8"));
        }
        other => panic!("unexpected {:?}", other),
    }
    assert!(matches!(
        DockerCompose::rendered(Ok(vec![0xe6, 0x97])),
        Err(Failure::ComposeTool { fault: ToolFault::NotText { .. } })
    ));
    assert_eq!(
        DockerCompose::rendered(Err("no sh".to_string())),
        Err(Failure::ComposeTool { fault: ToolFault::NotStarted { reason: "no sh".to_string() } })
    );
}

#[test]
fn an_unreadable_document_is_a_failure_of_the_tool() {
    let failure = DockerCompose::topology(Err("missing field `name`".to_string())).unwrap_err();
    assert_eq!(
        failure,
        Failure::ComposeTool { fault: ToolFault::Unreadable { reason: "missing field `name`".to_string() } }
    );
    let topology = DockerCompose::topology(Ok(config(&["web"]))).unwrap();
    assert_eq!(topology.name, "shop");
    assert!(topology.services.contains("web"));
}

#[test]
fn the_dispatcher_selects_one_branch() {
    let exec = Commands::Exec {
        service: Some("web".to_string()),
        user: None,
        command: words(&["echo", "hi"]),
    };
    match select(Some(exec), vec![]) {
        Branch::Exec { service, user, command } => {
            assert_eq!(service.as_deref(), Some("web"));
            assert_eq!(user, None);
            assert_eq!(command, words(&["echo", "hi"]));
        }
        other => panic!("unexpected {:?}", other),
    }
    assert!(matches!(select(Some(Commands::Start), vec![]), Branch::Start));
    assert!(matches!(
        select(Some(Commands::Stop { remove_data: true }), vec![]),
        Branch::Stop { remove_data: true }
    ));
    match select(None, words(&["ls", "-l"])) {
        Branch::Exec { service: None, user: None, command } => assert_eq!(command, words(&["ls", "-l"])),
        other => panic!("unexpected {:?}", other),
    }
    for command in [
        Commands::Init,
        Commands::Restart,
        Commands::Poweroff,
        Commands::Run { command: words(&["dev"]) },
        Commands::Shell,
        Commands::Launch,
        Commands::Status,
        Commands::GlobalStatus,
    ] {
        match select(Some(command.clone()), words(&["ignored"])) {
            Branch::NotImplemented { subcommand } => assert_eq!(subcommand, command),
            other => panic!("unexpected {:?}", other),
        }
    }
}

#[test]
fn exec_web_echo_hi_runs_the_tool_once() {
    let compose = DockerCompose::new("/work/shop/compose.yml".to_string());
    let topology = config(&["web"]);
    let command = Commands::Exec {
        service: Some("web".to_string()),
        user: None,
        command: words(&["echo", "hi"]),
    };
    let steps = plan(select(Some(command), vec![]), &compose, &topology).unwrap();
    assert_eq!(steps.len(), 1);
    match &steps[0] {
        Step::Run(run) => expect(
            run,
            "docker",
            &["compose", "exec", "web", "echo", "hi"],
            "/work/shop/compose.yml",
        ),
        other => panic!("unexpected {:?}", other),
    }
    assert_eq!(DockerCompose::completed(Ok(ToolExit::Exited(0))), Ok(()));
    match DockerCompose::completed(Ok(ToolExit::Exited(42))) {
        Err(Failure::ComposeTool { fault: ToolFault::Exit { status } }) => {
            assert_eq!(status, ToolExit::Exited(42))
        }
        other => panic!("unexpected {:?}", other),
    }
}

#[test]
fn start_sees_to_the_proxy_and_stop_takes_the_flag() {
    let compose = DockerCompose::new("/p/compose.yml".to_string());
    let topology = config(&[]);
    let start = plan(Branch::Start, &compose, &topology).unwrap();
    assert_eq!(start.len(), 2);
    assert!(matches!(start[0], Step::EnsureProxy));
    match &start[1] {
        Step::Run(run) => expect(run, "docker", &["compose", "up", "--detach"], "/p/compose.yml"),
        other => panic!("unexpected {:?}", other),
    }
    for remove_data in [false, true] {
        let stop = plan(Branch::Stop { remove_data }, &compose, &topology).unwrap();
        assert_eq!(stop.len(), 1);
        let expected: &[&str] =
            if remove_data { &["compose", "down", "--volumes"] } else { &["compose", "down"] };
        match &stop[0] {
            Step::Run(run) => expect(run, "docker", expected, "/p/compose.yml"),
            other => panic!("unexpected {:?}", other),
        }
    }
}

#[test]
fn free_words_run_in_the_default_service() {
    let compose = DockerCompose::new("/p/compose.yml".to_string());
    let topology = config(&["db", "web", "api"]);
    let steps = plan(select(None, words(&["ls"])), &compose, &topology).unwrap();
    assert_eq!(steps.len(), 1);
    match &steps[0] {
        Step::Run(run) => expect(run, "docker", &["compose", "exec", "api", "ls"], "/p/compose.yml"),
        other => panic!("unexpected {:?}", other),
    }
}

#[test]
fn commands_that_are_not_built_are_reported() {
    let compose = DockerCompose::new("/p/compose.yml".to_string());
    let topology = config(&["web"]);
    let failure = plan(select(Some(Commands::Shell), vec![]), &compose, &topology).unwrap_err();
    assert_eq!(failure, Failure::Unimplemented { command: "Shell".to_string() });
    assert_eq!(failure.message(), "Command not implemented yet: Shell");
    assert_eq!(failure.exit_code(), 71);
    let run = Commands::Run { command: words(&["dev"]) };
    let failure = plan(select(Some(run), vec![]), &compose, &topology).unwrap_err();
    assert_eq!(failure, Failure::Unimplemented { command: "Run".to_string() });
}

#[test]
fn a_run_goes_through_the_stages_in_order() {
    let mut dispatcher = Dispatcher::new();
    assert_eq!((dispatcher.stage(), dispatcher.status()), (Stage::Idle, 0));
    dispatcher.advance(Event::BranchSelected);
    assert_eq!(dispatcher.stage(), Stage::Idle);
    dispatcher.advance(Event::Completed);
    assert_eq!(dispatcher.stage(), Stage::Idle);
    dispatcher.advance(Event::GatePassed);
    assert_eq!(dispatcher.stage(), Stage::RuntimeChecked);
    dispatcher.advance(Event::GatePassed);
    assert_eq!(dispatcher.stage(), Stage::RuntimeChecked);
    dispatcher.advance(Event::BranchSelected);
    assert_eq!(dispatcher.stage(), Stage::Dispatched);
    dispatcher.advance(Event::Completed);
    assert_eq!((dispatcher.stage(), dispatcher.status()), (Stage::Done, 0));
    dispatcher.advance(Event::Failed(Failure::Resolution));
    assert_eq!((dispatcher.stage(), dispatcher.status()), (Stage::Done, 0));
}

#[test]
fn a_failure_ends_the_run_at_any_stage() {
    let mut idle = Dispatcher::new();
    idle.advance(Event::Failed(Failure::RuntimeUnavailable { reason: "down".to_string() }));
    assert_eq!((idle.stage(), idle.status()), (Stage::Done, 71));
    idle.advance(Event::GatePassed);
    idle.advance(Event::Completed);
    assert_eq!((idle.stage(), idle.status()), (Stage::Done, 71));

    let mut checked = Dispatcher::new();
    checked.advance(Event::GatePassed);
    checked.advance(Event::Failed(Failure::Resolution));
    assert_eq!((checked.stage(), checked.status()), (Stage::Done, 71));

    let mut dispatched = Dispatcher::new();
    dispatched.advance(Event::GatePassed);
    dispatched.advance(Event::BranchSelected);
    dispatched.advance(Event::Failed(Failure::Unimplemented { command: "Shell".to_string() }));
    assert_eq!((dispatched.stage(), dispatched.status()), (Stage::Done, 71));
}
