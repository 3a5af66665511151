use devcontainer::container::ContainerStat;
use devcontainer::devcontainer::{
    BuildOpts, CommandLineVec, DevContainer, DockerComposeFile, ShutdownAction,
};
use devcontainer::errors::{DownError, Error, UpError};
use devcontainer::lifecycle::{Action, Event, Lifecycle, OverlayFailure, Phase, WaitOutcome};
use devcontainer::paths::ProjectPath;
use devcontainer::project::{CommandHook, Project, ProjectOpts};
use devcontainer::settings::{Application, Settings};
use devcontainer::string_map::{StringMap, TextMap};

fn at(dc: DevContainer, settings: Settings) -> Project {
    Project {
        path: ProjectPath {
            text: "/home/me/work".to_string(),
            file_name: Some("work".to_string()),
        },
        filename: "devcontainer.json".to_string(),
        docket_host: None,
        devcontainer: Some(dc),
        settings: Some(settings),
        opts: ProjectOpts::default(),
    }
}

fn alpine() -> DevContainer {
    DevContainer {
        image: Some("alpine".to_string()),
        forward_ports: Some(vec![8080]),
        ..Default::default()
    }
}

fn shop() -> DevContainer {
    DevContainer {
        name: Some("shop".to_string()),
        docker_compose_file: Some(DockerComposeFile::File("docker-compose.yml".to_string())),
        service: Some("web".to_string()),
        run_services: Some(vec!["db".to_string()]),
        ..Default::default()
    }
}

fn container(id: &str, state: &str) -> ContainerStat {
    ContainerStat {
        id: id.to_string(),
        state: Some(state.to_string()),
        labels: None,
    }
}

fn line(text: &str) -> Option<CommandLineVec> {
    Some(CommandLineVec::Line(text.to_string()))
}

fn failure(action: Action) -> Error {
    match action {
        Action::Finish(Err(e)) => e,
        other => panic!("the command did not fail: {:?}", other),
    }
}

fn hook_of(action: &Action) -> (CommandHook, bool, String) {
    match action {
        Action::RunHook {
            hook,
            user,
            id: _,
            args,
        } => (*hook, *user, args.join(" ")),
        other => panic!("no hook is run: {:?}", other),
    }
}

fn to_lookup(project: &Project) -> Lifecycle {
    let (state, action) = project.up(false).unwrap();
    assert!(matches!(action, Action::PullImage { .. }));
    let (state, action) = project.step(state, Event::Done(Ok(())));
    assert!(matches!(action, Action::FindContainer { .. }));
    state
}

#[test]
fn a_new_container_is_pulled_created_and_started() {
    let project = at(alpine(), Settings::default());

    let (state, action) = project.up(false).unwrap();
    match action {
        Action::PullImage { image } => assert_eq!(image, "alpine:latest"),
        other => panic!("no pull: {:?}", other),
    }
    assert_eq!(state.phase, Phase::Pulling);

    let (state, action) = project.step(state, Event::Done(Ok(())));
    match action {
        Action::FindContainer { filters } => {
            assert_eq!(filters, vec!["devcontainer=true", "devcontainer_name=work"])
        }
        other => panic!("no lookup: {:?}", other),
    }

    let (state, action) = project.step(state, Event::Containers(Ok(vec![])));
    assert!(matches!(action, Action::AllocatePort));

    let (state, action) = project.step(state, Event::Port(Some(40123)));
    match action {
        Action::ProbeName { candidate } => assert_eq!(candidate, "work_devcontainer_alpine_1"),
        other => panic!("no name is tried: {:?}", other),
    }

    let (state, action) = project.step(state, Event::Containers(Ok(vec![])));
    match action {
        Action::CreateContainer { name, config } => {
            assert_eq!(name, Some("work_devcontainer_alpine_1".to_string()));
            assert_eq!(config.image, Some("alpine:latest".to_string()));
            assert_eq!(
                config.exposed_ports,
                Some(vec!["8080/tcp".to_string(), "40123/tcp".to_string()])
            );
            let bindings = config.host_config.as_ref().unwrap().port_bindings.as_ref().unwrap();
            let binding = bindings.get("8080/tcp").unwrap();
            assert_eq!(binding.host_ip, Some("0.0.0.0".to_string()));
            assert_eq!(binding.host_port, Some("8080".to_string()));
            assert_eq!(
                config.env,
                Some(vec![
                    "DEVCONTAINER_PROJECT=work".to_string(),
                    "DEVCONTAINER_APPLICATION_PORT=40123".to_string(),
                ])
            );
        }
        other => panic!("nothing is created: {:?}", other),
    }
    assert!(state.config.is_none());

    let (state, action) = project.step(state, Event::Text(Ok("c0ffee".to_string())));
    match action {
        Action::StartContainer { id } => assert_eq!(id, "c0ffee"),
        other => panic!("nothing is started: {:?}", other),
    }

    let (state, action) = project.step(state, Event::Done(Ok(())));
    assert!(matches!(action, Action::Finish(Ok(()))));
    assert_eq!(state.phase, Phase::Finished);
    assert_eq!(state.container_id, "c0ffee");
    assert_eq!(state.ctx.application_port, Some(40123));
    assert!(!state.existed);
}

#[test]
fn a_running_container_gets_the_attach_hook_only() {
    let dc = DevContainer {
        post_create_command: line("make setup"),
        post_start_command: line("make start"),
        post_attach_command: line("make attach"),
        ..alpine()
    };
    let settings = Settings {
        post_create_command: line("mine create"),
        post_start_command: line("mine start"),
        post_attach_command: line("mine attach"),
        ..Settings::default()
    };
    let project = at(dc, settings);
    let state = to_lookup(&project);

    let (state, action) = project.step(
        state,
        Event::Containers(Ok(vec![container("abc", "running")])),
    );
    assert!(matches!(action, Action::AllocatePort));
    assert!(state.existed);
    assert!(state.was_running);

    let (state, action) = project.step(state, Event::Port(Some(5000)));
    assert_eq!(
        hook_of(&action),
        (CommandHook::PostAttach, false, "make attach".to_string())
    );
    let (state, action) = project.step(state, Event::ExecFinished(Ok(Some(0))));
    assert_eq!(
        hook_of(&action),
        (CommandHook::PostAttach, true, "mine attach".to_string())
    );
    let (state, action) = project.step(state, Event::ExecFinished(Ok(None)));
    assert!(matches!(action, Action::Finish(Ok(()))));
    assert_eq!(state.container_id, "abc");
}

#[test]
fn a_stopped_container_is_started_and_not_created() {
    let dc = DevContainer {
        post_create_command: line("make setup"),
        post_start_command: line("make start"),
        post_attach_command: line("make attach"),
        ..alpine()
    };
    let project = at(dc, Settings::default());
    let state = to_lookup(&project);
    let mut labels: TextMap = StringMap::new();
    labels.insert("devcontainer_application_port=7001".to_string(), "".to_string());
    let found = ContainerStat {
        id: "abc".to_string(),
        state: Some("exited".to_string()),
        labels: Some(labels),
    };
    let (state, action) = project.step(state, Event::Containers(Ok(vec![found])));
    match action {
        Action::StartContainer { id } => assert_eq!(id, "abc"),
        other => panic!("the container is not started: {:?}", other),
    }
    assert_eq!(state.ctx.application_port, Some(7001));
    let (state, action) = project.step(state, Event::Done(Ok(())));
    assert_eq!(
        hook_of(&action),
        (CommandHook::PostStart, false, "make start".to_string())
    );
    let (state, action) = project.step(state, Event::ExecFinished(Ok(Some(0))));
    assert_eq!(
        hook_of(&action),
        (CommandHook::PostAttach, false, "make attach".to_string())
    );
    let (_, action) = project.step(state, Event::ExecFinished(Ok(Some(0))));
    assert!(matches!(action, Action::Finish(Ok(()))));
}

#[test]
fn a_new_container_runs_every_hook_in_order() {
    let dc = DevContainer {
        post_create_command: Some(CommandLineVec::Args(vec![
            "make".to_string(),
            "setup".to_string(),
        ])),
        post_attach_command: line("make attach"),
        ..alpine()
    };
    let settings = Settings {
        post_create_command: line("mine create"),
        post_start_command: line("mine start"),
        ..Settings::default()
    };
    let project = at(dc, settings);
    let state = to_lookup(&project);
    let (state, _) = project.step(state, Event::Containers(Ok(vec![])));
    let (state, _) = project.step(state, Event::Port(Some(1)));
    let (state, _) = project.step(state, Event::Containers(Ok(vec![])));
    let (state, _) = project.step(state, Event::Text(Ok("new".to_string())));
    let (state, action) = project.step(state, Event::Done(Ok(())));
    match &action {
        Action::RunHook { id, args, .. } => {
            assert_eq!(id, "new");
            assert_eq!(args, &vec!["make".to_string(), "setup".to_string()]);
        }
        other => panic!("no hook is run: {:?}", other),
    }
    assert_eq!(hook_of(&action).0, CommandHook::PostCreate);
    let (state, action) = project.step(state, Event::ExecFinished(Ok(Some(0))));
    assert_eq!(
        hook_of(&action),
        (CommandHook::PostCreate, true, "mine create".to_string())
    );
    let (state, action) = project.step(state, Event::ExecFinished(Ok(Some(0))));
    assert_eq!(
        hook_of(&action),
        (CommandHook::PostStart, true, "mine start".to_string())
    );
    let (state, action) = project.step(state, Event::ExecFinished(Ok(Some(0))));
    assert_eq!(
        hook_of(&action),
        (CommandHook::PostAttach, false, "make attach".to_string())
    );
    let (_, action) = project.step(state, Event::ExecFinished(Ok(Some(0))));
    assert!(matches!(action, Action::Finish(Ok(()))));
}

#[test]
fn a_failing_hook_ends_the_command() {
    let dc = DevContainer {
        post_attach_command: line("false"),
        ..alpine()
    };
    let settings = Settings {
        post_attach_command: line("never"),
        ..Settings::default()
    };
    let project = at(dc, settings);
    let state = to_lookup(&project);
    let (state, _) = project.step(
        state,
        Event::Containers(Ok(vec![container("abc", "running")])),
    );
    let (state, action) = project.step(state, Event::Port(Some(1)));
    assert_eq!(hook_of(&action).2, "false");
    let (state, action) = project.step(state, Event::ExecFinished(Ok(Some(3))));
    match failure(action) {
        Error::ExecCommandError(why) => assert_eq!(why, "Exit code: 3"),
        other => panic!("unexpected error: {:?}", other),
    }
    assert_eq!(state.phase, Phase::Finished);

    let state = to_lookup(&project);
    let (state, _) = project.step(
        state,
        Event::Containers(Ok(vec![container("abc", "running")])),
    );
    let (state, _) = project.step(state, Event::Port(Some(1)));
    let (_, action) = project.step(state, Event::ExecFinished(Err("gone".to_string())));
    match failure(action) {
        Error::DockerError(why) => assert_eq!(why, "gone"),
        other => panic!("unexpected error: {:?}", other),
    }
}

#[test]
fn names_are_tried_until_one_is_free() {
    let project = at(alpine(), Settings::default());
    let state = to_lookup(&project);
    let (state, _) = project.step(state, Event::Containers(Ok(vec![])));
    let (mut state, mut action) = project.step(state, Event::Port(Some(1)));
    let mut n = 1;
    while n < 4 {
        match &action {
            Action::ProbeName { candidate } => {
                assert_eq!(candidate, &format!("work_devcontainer_alpine_{}", n))
            }
            other => panic!("no name is tried: {:?}", other),
        }
        let next = project.step(
            state,
            Event::Containers(Ok(vec![container("other", "running")])),
        );
        state = next.0;
        action = next.1;
        n += 1;
    }
    let (_, action) = project.step(state, Event::Containers(Err("timeout".to_string())));
    match action {
        Action::CreateContainer { name, .. } => {
            assert_eq!(name, Some("work_devcontainer_alpine_4".to_string()))
        }
        other => panic!("nothing is created: {:?}", other),
    }
}

#[test]
fn after_twenty_names_the_runtime_picks_one() {
    let project = at(alpine(), Settings::default());
    let state = to_lookup(&project);
    let (state, _) = project.step(state, Event::Containers(Ok(vec![])));
    let (mut state, mut action) = project.step(state, Event::Port(Some(1)));
    let mut tried = 0;
    while let Action::ProbeName { candidate } = &action {
        tried += 1;
        assert_eq!(candidate, &format!("work_devcontainer_alpine_{}", tried));
        let next = project.step(
            state,
            Event::Containers(Ok(vec![container("other", "exited")])),
        );
        state = next.0;
        action = next.1;
    }
    assert_eq!(tried, 20);
    match action {
        Action::CreateContainer { name, .. } => assert_eq!(name, None),
        other => panic!("nothing is created: {:?}", other),
    }
}

#[test]
fn a_directory_without_name_gives_no_container_name() {
    let mut project = at(
        DevContainer {
            name: Some("root".to_string()),
            ..alpine()
        },
        Settings::default(),
    );
    project.path = ProjectPath {
        text: "/".to_string(),
        file_name: None,
    };
    let state = to_lookup(&project);
    let (state, _) = project.step(state, Event::Containers(Ok(vec![])));
    let (_, action) = project.step(state, Event::Port(Some(1)));
    match action {
        Action::CreateContainer { name, config } => {
            assert_eq!(name, None);
            let mounts = config.host_config.unwrap().mounts.unwrap();
            assert_eq!(mounts[0].source, Some("/".to_string()));
        }
        other => panic!("nothing is created: {:?}", other),
    }
}

#[test]
fn failures_of_the_runtime_end_the_command() {
    let project = at(alpine(), Settings::default());

    let (state, _) = project.up(true).unwrap();
    let (_, action) = project.step(state, Event::Done(Err("no such image".to_string())));
    match failure(action) {
        Error::UpError(UpError::ImagePull(why)) => assert_eq!(why, "no such image"),
        other => panic!("unexpected error: {:?}", other),
    }

    let state = to_lookup(&project);
    let (_, action) = project.step(state, Event::Containers(Err("refused".to_string())));
    match failure(action) {
        Error::DockerError(why) => assert_eq!(why, "refused"),
        other => panic!("unexpected error: {:?}", other),
    }

    let state = to_lookup(&project);
    let (state, _) = project.step(state, Event::Containers(Ok(vec![])));
    let (_, action) = project.step(state, Event::Port(None));
    match failure(action) {
        Error::Other(why) => assert_eq!(why, "Could select an available port for application"),
        other => panic!("unexpected error: {:?}", other),
    }

    let state = to_lookup(&project);
    let (state, _) = project.step(state, Event::Containers(Ok(vec![])));
    let (state, _) = project.step(state, Event::Port(Some(1)));
    let (state, _) = project.step(state, Event::Containers(Ok(vec![])));
    let (_, action) = project.step(state, Event::Text(Err("conflict".to_string())));
    match failure(action) {
        Error::DockerError(why) => assert_eq!(why, "conflict"),
        other => panic!("unexpected error: {:?}", other),
    }

    let state = to_lookup(&project);
    let (state, _) = project.step(
        state,
        Event::Containers(Ok(vec![container("abc", "exited")])),
    );
    let (state, _) = project.step(state, Event::Port(Some(1)));
    let (_, action) = project.step(state, Event::Done(Err("cannot start".to_string())));
    match failure(action) {
        Error::DockerError(why) => assert_eq!(why, "cannot start"),
        other => panic!("unexpected error: {:?}", other),
    }
}

#[test]
fn a_bad_port_label_ends_the_command() {
    let project = at(alpine(), Settings::default());
    let state = to_lookup(&project);
    let mut labels: TextMap = StringMap::new();
    labels.insert("devcontainer_application_port=x".to_string(), "".to_string());
    let found = ContainerStat {
        id: "abc".to_string(),
        state: Some("running".to_string()),
        labels: Some(labels),
    };
    let (_, action) = project.step(state, Event::Containers(Ok(vec![found])));
    match failure(action) {
        Error::Other(why) => assert_eq!(
            why,
            "Could not parse application port from container: invalid digit found in string"
        ),
        other => panic!("unexpected error: {:?}", other),
    }
}

#[test]
fn a_bad_mount_ends_the_command_before_anything_is_created() {
    let dc = DevContainer {
        mounts: Some(vec!["oops".to_string()]),
        ..alpine()
    };
    let project = at(dc, Settings::default());
    let state = to_lookup(&project);
    let (state, _) = project.step(state, Event::Containers(Ok(vec![])));
    let (_, action) = project.step(state, Event::Port(Some(1)));
    match failure(action) {
        Error::InvalidConfig(why) => assert_eq!(why, "Invalid mount point: oops"),
        other => panic!("unexpected error: {:?}", other),
    }
}

#[test]
fn an_event_that_was_not_asked_for_is_a_failure() {
    let project = at(alpine(), Settings::default());
    let (state, _) = project.up(false).unwrap();
    let (state, action) = project.step(state, Event::Port(Some(1)));
    match failure(action) {
        Error::Other(why) => assert_eq!(why, "unexpected event"),
        other => panic!("unexpected error: {:?}", other),
    }
    let (_, action) = project.step(state, Event::Done(Ok(())));
    match failure(action) {
        Error::Other(why) => assert_eq!(why, "unexpected event"),
        other => panic!("unexpected error: {:?}", other),
    }
}

#[test]
fn nothing_is_brought_up_without_a_descriptor() {
    let mut project = at(alpine(), Settings::default());
    project.devcontainer = None;
    assert!(matches!(project.up(true), Err(Error::NoDevContainer)));
    assert!(matches!(project.down(false), Err(Error::NoDevContainer)));
}

#[test]
fn a_build_is_tagged_by_its_dockerfile() {
    let dc = DevContainer {
        build: Some(BuildOpts {
            dockerfile: "Dockerfile".to_string(),
            context: None,
            args: None,
            target: None,
        }),
        ..Default::default()
    };
    let project = at(dc, Settings::default());
    let (state, action) = project.up(false).unwrap();
    match action {
        Action::ReadDockerfile { path } => {
            assert_eq!(path, "/home/me/work/.devcontainer/Dockerfile")
        }
        other => panic!("the Dockerfile is not read: {:?}", other),
    }
    let (state, action) = project.step(state, Event::Text(Ok("abc".to_string())));
    match action {
        Action::BuildImage {
            context_dir,
            dockerfile,
            tag,
        } => {
            assert_eq!(context_dir, "/home/me/work/.devcontainer");
            assert_eq!(dockerfile, "devcontainer/Dockerfile");
            assert_eq!(tag, "devcontainer_a9993e3647");
        }
        other => panic!("nothing is built: {:?}", other),
    }
    assert_eq!(state.image, "devcontainer_a9993e3647");
    let (state, action) = project.step(state, Event::Done(Ok(())));
    assert!(matches!(action, Action::FindContainer { .. }));
    let (state, _) = project.step(state, Event::Containers(Ok(vec![])));
    let (state, action) = project.step(state, Event::Port(Some(1)));
    match action {
        Action::ProbeName { candidate } => {
            assert_eq!(candidate, "work_devcontainer_devcontainer_a9993e3647_1")
        }
        other => panic!("no name is tried: {:?}", other),
    }
    let (_, action) = project.step(state, Event::Containers(Ok(vec![])));
    match action {
        Action::CreateContainer { config, .. } => {
            assert_eq!(config.image, Some("devcontainer_a9993e3647".to_string()))
        }
        other => panic!("nothing is created: {:?}", other),
    }
}

#[test]
fn a_build_that_fails_ends_the_command() {
    let dc = DevContainer {
        build: Some(BuildOpts {
            dockerfile: "Dockerfile".to_string(),
            context: None,
            args: None,
            target: None,
        }),
        ..Default::default()
    };
    let project = at(dc, Settings::default());
    let (state, _) = project.up(false).unwrap();
    let (_, action) = project.step(state, Event::Text(Err("no such file".to_string())));
    match failure(action) {
        Error::IOError(why) => assert_eq!(why, "no such file"),
        other => panic!("unexpected error: {:?}", other),
    }
    let (state, _) = project.up(false).unwrap();
    let (state, _) = project.step(state, Event::Text(Ok("FROM x".to_string())));
    let (_, action) = project.step(state, Event::Done(Err("step 2 failed".to_string())));
    match failure(action) {
        Error::UpError(UpError::ImagePull(why)) => assert_eq!(why, "step 2 failed"),
        other => panic!("unexpected error: {:?}", other),
    }
}

#[test]
fn a_compose_stack_is_brought_up_with_the_overlay() {
    let dc = DevContainer {
        post_create_command: line("make setup"),
        post_attach_command: line("make attach"),
        ..shop()
    };
    let settings = Settings {
        forward_ports: Some(vec![3000]),
        ..Settings::default()
    };
    let project = at(dc, settings);
    let (state, action) = project.up(false).unwrap();
    match action {
        Action::FindContainer { filters } => assert_eq!(
            filters,
            vec![
                "com.docker.compose.project=shop",
                "com.docker.compose.service=web"
            ]
        ),
        other => panic!("no lookup: {:?}", other),
    }
    let (state, action) = project.step(state, Event::Containers(Ok(vec![])));
    match action {
        Action::ReadComposeVersion { path } => {
            assert_eq!(path, "/home/me/work/.devcontainer/docker-compose.yml")
        }
        other => panic!("the compose file is not read: {:?}", other),
    }
    let (state, action) = project.step(state, Event::Text(Ok("3.8".to_string())));
    match action {
        Action::WriteComposeOverride { overlay } => {
            assert_eq!(overlay.file_name, "web-compose.yml");
            assert_eq!(overlay.model.version, "3.8");
            assert_eq!(overlay.model.services[0].0, "web");
            assert_eq!(
                overlay.model.services[0].1.ports,
                Some(vec!["3000:3000".to_string()])
            );
        }
        other => panic!("no overlay is written: {:?}", other),
    }
    let (state, action) = project.step(
        state,
        Event::OverlayWritten(Ok("/tmp/web-compose.yml".to_string())),
    );
    match action {
        Action::RunCompose { args, dir } => {
            assert_eq!(
                args,
                vec![
                    "docker-compose",
                    "-p",
                    "shop",
                    "-f",
                    "docker-compose.yml",
                    "-f",
                    "/tmp/web-compose.yml",
                    "up",
                    "-d",
                    "web",
                    "db"
                ]
            );
            assert_eq!(dir, "/home/me/work/.devcontainer");
        }
        other => panic!("compose is not run: {:?}", other),
    }
    let (state, action) = project.step(state, Event::ProcessExited(Ok(Some(0))));
    assert!(matches!(action, Action::FindContainer { .. }));
    let (state, action) = project.step(
        state,
        Event::Containers(Ok(vec![container("web1", "running")])),
    );
    assert_eq!(
        hook_of(&action),
        (CommandHook::PostCreate, false, "make setup".to_string())
    );
    let (state, action) = project.step(state, Event::ExecFinished(Ok(Some(0))));
    assert_eq!(
        hook_of(&action),
        (CommandHook::PostAttach, false, "make attach".to_string())
    );
    let (state, action) = project.step(state, Event::ExecFinished(Ok(Some(0))));
    assert!(matches!(action, Action::Finish(Ok(()))));
    assert_eq!(state.container_id, "web1");
    assert_eq!(state.ctx.application_port, None);
}

#[test]
fn a_compose_service_that_ran_gets_the_attach_hook_only() {
    let dc = DevContainer {
        post_create_command: line("make setup"),
        post_start_command: line("make start"),
        post_attach_command: line("make attach"),
        ..shop()
    };
    let project = at(dc, Settings::default());
    let (state, _) = project.up(false).unwrap();
    let (state, _) = project.step(
        state,
        Event::Containers(Ok(vec![container("web1", "running")])),
    );
    let (state, _) = project.step(state, Event::Text(Ok("3".to_string())));
    let (state, _) = project.step(state, Event::OverlayWritten(Ok("/tmp/o.yml".to_string())));
    let (state, _) = project.step(state, Event::ProcessExited(Ok(Some(0))));
    let (state, action) = project.step(
        state,
        Event::Containers(Ok(vec![container("web1", "running")])),
    );
    assert_eq!(hook_of(&action).0, CommandHook::PostAttach);
    let (_, action) = project.step(state, Event::ExecFinished(Ok(Some(0))));
    assert!(matches!(action, Action::Finish(Ok(()))));
}

#[test]
fn compose_failures_end_the_command() {
    let project = at(shop(), Settings::default());

    let (state, _) = project.up(false).unwrap();
    let (state, _) = project.step(state, Event::Containers(Ok(vec![])));
    let (_, action) = project.step(state, Event::Text(Err("no version".to_string())));
    match failure(action) {
        Error::Other(why) => assert_eq!(why, "no version"),
        other => panic!("unexpected error: {:?}", other),
    }

    let (state, _) = project.up(false).unwrap();
    let (state, _) = project.step(state, Event::Containers(Ok(vec![])));
    let (state, _) = project.step(state, Event::Text(Ok("3".to_string())));
    let (_, action) = project.step(
        state,
        Event::OverlayWritten(Err(OverlayFailure::Yaml("bad key".to_string()))),
    );
    match failure(action) {
        Error::YamlError(why) => assert_eq!(why, "bad key"),
        other => panic!("unexpected error: {:?}", other),
    }

    let (state, _) = project.up(false).unwrap();
    let (state, _) = project.step(state, Event::Containers(Ok(vec![])));
    let (state, _) = project.step(state, Event::Text(Ok("3".to_string())));
    let (_, action) = project.step(
        state,
        Event::OverlayWritten(Err(OverlayFailure::Io("disk full".to_string()))),
    );
    match failure(action) {
        Error::IOError(why) => assert_eq!(why, "disk full"),
        other => panic!("unexpected error: {:?}", other),
    }

    let (state, _) = project.up(false).unwrap();
    let (state, _) = project.step(state, Event::Containers(Ok(vec![])));
    let (state, _) = project.step(state, Event::Text(Ok("3".to_string())));
    let (state, _) = project.step(state, Event::OverlayWritten(Ok("/tmp/o.yml".to_string())));
    let (_, action) = project.step(state, Event::ProcessExited(Ok(Some(1))));
    match failure(action) {
        Error::UpError(UpError::ComposeError(why)) => assert_eq!(why, "exit status: 1"),
        other => panic!("unexpected error: {:?}", other),
    }

    let (state, _) = project.up(false).unwrap();
    let (state, _) = project.step(state, Event::Containers(Ok(vec![])));
    let (state, _) = project.step(state, Event::Text(Ok("3".to_string())));
    let (state, _) = project.step(state, Event::OverlayWritten(Ok("/tmp/o.yml".to_string())));
    let (_, action) = project.step(
        state,
        Event::ProcessExited(Err("No such file or directory".to_string())),
    );
    match failure(action) {
        Error::UpError(UpError::ComposeError(why)) => {
            assert_eq!(why, "No such file or directory")
        }
        other => panic!("unexpected error: {:?}", other),
    }

    let (state, _) = project.up(false).unwrap();
    let (state, _) = project.step(state, Event::Containers(Ok(vec![])));
    let (state, _) = project.step(state, Event::Text(Ok("3".to_string())));
    let (state, _) = project.step(state, Event::OverlayWritten(Ok("/tmp/o.yml".to_string())));
    let (_, action) = project.step(state, Event::Done(Ok(())));
    match failure(action) {
        Error::Other(why) => assert_eq!(why, "unexpected event"),
        other => panic!("unexpected error: {:?}", other),
    }

    let (state, _) = project.up(false).unwrap();
    let (state, _) = project.step(state, Event::Containers(Ok(vec![])));
    let (state, _) = project.step(state, Event::Text(Ok("3".to_string())));
    let (state, _) = project.step(state, Event::OverlayWritten(Ok("/tmp/o.yml".to_string())));
    let (state, _) = project.step(state, Event::ProcessExited(Ok(Some(0))));
    let (_, action) = project.step(state, Event::Containers(Ok(vec![])));
    match failure(action) {
        Error::UpError(UpError::ContainerCreate(why)) => {
            assert_eq!(why, "Could not locate container after compose up")
        }
        other => panic!("unexpected error: {:?}", other),
    }
}

fn to_waiting(project: &Project) -> Lifecycle {
    let (state, _) = project.up(true).unwrap();
    let (state, _) = project.step(state, Event::Done(Ok(())));
    let (state, _) = project.step(
        state,
        Event::Containers(Ok(vec![container("abc", "running")])),
    );
    let (state, action) = project.step(state, Event::Port(Some(6000)));
    match action {
        Action::Wait {
            with_application,
            container_id,
        } => {
            assert!(!with_application);
            assert_eq!(container_id, "abc");
        }
        other => panic!("the command does not wait: {:?}", other),
    }
    state
}

#[test]
fn without_shutdown_action_an_interrupt_stops_nothing() {
    for action in [None, Some(ShutdownAction::Nothing), Some(ShutdownAction::StopCompose)] {
        let project = at(
            DevContainer {
                shutdown_action: action,
                ..alpine()
            },
            Settings::default(),
        );
        let state = to_waiting(&project);
        let (state, action) = project.step(state, Event::Waited(WaitOutcome::Interrupted));
        assert!(matches!(action, Action::Finish(Ok(()))));
        assert_eq!(state.phase, Phase::Finished);
        let (_, action) = project.down(true).unwrap();
        assert!(matches!(action, Action::Finish(Ok(()))));
    }
}

#[test]
fn with_stop_container_an_interrupt_stops_the_container() {
    let project = at(
        DevContainer {
            shutdown_action: Some(ShutdownAction::StopContainer),
            ..alpine()
        },
        Settings::default(),
    );
    let state = to_waiting(&project);
    let (state, action) = project.step(state, Event::Waited(WaitOutcome::Interrupted));
    match action {
        Action::FindContainer { filters } => {
            assert_eq!(filters, vec!["devcontainer=true", "devcontainer_name=work"])
        }
        other => panic!("the container is not looked for: {:?}", other),
    }
    let (state, action) = project.step(
        state,
        Event::Containers(Ok(vec![container("abc", "running")])),
    );
    match action {
        Action::StopContainer { id } => assert_eq!(id, "abc"),
        other => panic!("the container is not stopped: {:?}", other),
    }
    let (_, action) = project.step(state, Event::Done(Ok(())));
    assert!(matches!(action, Action::Finish(Ok(()))));
}

#[test]
fn a_container_that_ends_by_itself_is_left_alone() {
    let project = at(
        DevContainer {
            shutdown_action: Some(ShutdownAction::StopContainer),
            ..alpine()
        },
        Settings::default(),
    );
    let state = to_waiting(&project);
    let (_, action) = project.step(state, Event::Waited(WaitOutcome::ContainerExited));
    assert!(matches!(action, Action::Finish(Ok(()))));
}

#[test]
fn a_manual_down_stops_whatever_the_shutdown_action() {
    for action in [None, Some(ShutdownAction::Nothing), Some(ShutdownAction::StopContainer)] {
        let project = at(
            DevContainer {
                shutdown_action: action,
                ..alpine()
            },
            Settings::default(),
        );
        let (state, action) = project.down(false).unwrap();
        assert!(matches!(action, Action::FindContainer { .. }));
        assert!(state.stopping);
        let (state, action) = project.step(
            state,
            Event::Containers(Ok(vec![container("abc", "running"), container("x", "exited")])),
        );
        match action {
            Action::StopContainer { id } => assert_eq!(id, "abc"),
            other => panic!("the container is not stopped: {:?}", other),
        }
        let (_, action) = project.step(state, Event::Done(Err("busy".to_string())));
        match failure(action) {
            Error::DockerError(why) => assert_eq!(why, "busy"),
            other => panic!("unexpected error: {:?}", other),
        }
    }
}

#[test]
fn stopping_a_container_that_is_not_there_is_no_failure() {
    let project = at(alpine(), Settings::default());
    let (state, _) = project.down(false).unwrap();
    let (state, action) = project.step(state, Event::Containers(Ok(vec![])));
    assert!(matches!(action, Action::Finish(Ok(()))));
    assert_eq!(state.phase, Phase::Finished);
    let (state, _) = project.down(false).unwrap();
    let (_, action) = project.step(state, Event::Containers(Err("refused".to_string())));
    assert!(matches!(failure(action), Error::DockerError(_)));
}

#[test]
fn a_compose_stack_is_stopped_not_removed() {
    let project = at(shop(), Settings::default());
    let (state, action) = project.down(false).unwrap();
    assert!(matches!(action, Action::ReadComposeVersion { .. }));
    let (state, action) = project.step(state, Event::Text(Ok("3".to_string())));
    assert!(matches!(action, Action::WriteComposeOverride { .. }));
    let (state, action) = project.step(
        state,
        Event::OverlayWritten(Ok("/tmp/web-compose.yml".to_string())),
    );
    match action {
        Action::RunCompose { args, dir } => {
            assert_eq!(
                args,
                vec![
                    "docker-compose",
                    "-p",
                    "shop",
                    "-f",
                    "docker-compose.yml",
                    "-f",
                    "/tmp/web-compose.yml",
                    "stop"
                ]
            );
            assert_eq!(dir, "/home/me/work/.devcontainer");
        }
        other => panic!("compose is not run: {:?}", other),
    }
    let (_, action) = project.step(state, Event::ProcessExited(Ok(Some(0))));
    assert!(matches!(action, Action::Finish(Ok(()))));

    for (ended, text) in [
        (Ok(Some(1)), "exit status: 1"),
        (Ok(Some(-2)), "exit status: -2"),
        (Ok(Some(255)), "exit status: 255"),
        (Ok(None), "terminated by a signal"),
        (Err("cannot run".to_string()), "cannot run"),
    ] {
        let (state, _) = project.down(false).unwrap();
        let (state, _) = project.step(state, Event::Text(Ok("3".to_string())));
        let (state, _) =
            project.step(state, Event::OverlayWritten(Ok("/tmp/o.yml".to_string())));
        let (_, action) = project.step(state, Event::ProcessExited(ended));
        match failure(action) {
            Error::DownError(DownError::ComposeError(why)) => assert_eq!(why, text),
            other => panic!("unexpected error: {:?}", other),
        }
    }
}

#[test]
fn a_compose_stack_follows_its_own_shutdown_action() {
    let keep = at(
        DevContainer {
            shutdown_action: Some(ShutdownAction::StopContainer),
            ..shop()
        },
        Settings::default(),
    );
    let (_, action) = keep.down(true).unwrap();
    assert!(matches!(action, Action::Finish(Ok(()))));
    let stop = at(
        DevContainer {
            shutdown_action: Some(ShutdownAction::StopCompose),
            ..shop()
        },
        Settings::default(),
    );
    let (_, action) = stop.down(true).unwrap();
    assert!(matches!(action, Action::ReadComposeVersion { .. }));
}

fn with_application() -> Project {
    at(
        DevContainer {
            shutdown_action: Some(ShutdownAction::StopContainer),
            ..alpine()
        },
        Settings {
            application: Some(Application {
                cmd: CommandLineVec::Args(vec!["code".to_string(), ".".to_string()]),
            }),
            ..Settings::default()
        },
    )
}

fn to_spawn(project: &Project, should_wait: bool) -> Lifecycle {
    let (state, _) = project.up(should_wait).unwrap();
    let (state, _) = project.step(state, Event::Done(Ok(())));
    let (state, _) = project.step(
        state,
        Event::Containers(Ok(vec![container("abc", "running")])),
    );
    let (state, action) = project.step(state, Event::Port(Some(6000)));
    match action {
        Action::SpawnApplication { request } => {
            assert_eq!(request.program, "code");
            assert_eq!(request.args, vec!["."]);
            assert_eq!(
                request.envs.get("DEVCONTAINER_APPLICATION_PORT"),
                Some(&"6000".to_string())
            );
        }
        other => panic!("the application is not started: {:?}", other),
    }
    state
}

#[test]
fn the_application_is_started_once_the_container_runs() {
    let project = with_application();
    let state = to_spawn(&project, false);
    let (state, action) = project.step(state, Event::Done(Ok(())));
    assert!(matches!(action, Action::Finish(Ok(()))));
    assert!(state.application);

    let state = to_spawn(&project, true);
    let (_, action) = project.step(state, Event::Done(Err("not found".to_string())));
    match failure(action) {
        Error::UpError(UpError::ApplicationSpawn(why)) => assert_eq!(why, "not found"),
        other => panic!("unexpected error: {:?}", other),
    }
}

#[test]
fn the_end_of_the_application_takes_the_container_down() {
    let project = with_application();
    let state = to_spawn(&project, true);
    let (state, action) = project.step(state, Event::Done(Ok(())));
    match action {
        Action::Wait {
            with_application,
            container_id,
        } => {
            assert!(with_application);
            assert_eq!(container_id, "abc");
        }
        other => panic!("the command does not wait: {:?}", other),
    }
    let (state, action) = project.step(
        state,
        Event::Waited(WaitOutcome::ApplicationExited(Ok(()))),
    );
    assert!(matches!(action, Action::FindContainer { .. }));
    assert!(state.from_up);
    assert_eq!(state.ctx.application_port, None);

    let state = to_spawn(&project, true);
    let (state, _) = project.step(state, Event::Done(Ok(())));
    let (_, action) = project.step(
        state,
        Event::Waited(WaitOutcome::ApplicationExited(Err("killed".to_string()))),
    );
    match failure(action) {
        Error::UpError(UpError::ApplicationSpawn(why)) => assert_eq!(why, "killed"),
        other => panic!("unexpected error: {:?}", other),
    }
}
