use devcontainer::devcontainer::{
    default_true, AppPort, BuildOpts, CommandLineVec, DevContainer, DockerComposeFile, Mode,
    ShutdownAction,
};
use devcontainer::errors::Error;
use devcontainer::paths::ProjectPath;

fn invalid_config(dc: &DevContainer) -> String {
    match dc.validate() {
        Err(Error::InvalidConfig(message)) => message,
        Err(other) => panic!("unexpected error: {:?}", other),
        Ok(()) => panic!("the descriptor was accepted"),
    }
}

#[test]
#[should_panic]
fn test_no_valid_source() {
    let dc = DevContainer::default();
    dc.validate().unwrap()
}

#[test]
#[should_panic]
fn test_multiple_sources() {
    let dc = DevContainer {
        image: Some("myimage".to_string()),
        docker_compose_file: Some(DockerComposeFile::File("docker-compose.yaml".to_string())),
        ..Default::default()
    };
    dc.validate().unwrap()
}

#[test]
#[should_panic]
fn test_invalid_image() {
    let dc = DevContainer {
        image: Some("".to_string()),
        ..Default::default()
    };
    dc.validate().unwrap()
}

#[test]
#[should_panic]
fn test_invalid_docker_compose() {
    let dc = DevContainer {
        docker_compose_file: Some(DockerComposeFile::File("".to_string())),
        ..Default::default()
    };
    dc.validate().unwrap()
}

#[test]
#[should_panic]
fn test_invalid_docker_compose_arr() {
    let dc = DevContainer {
        docker_compose_file: Some(DockerComposeFile::Files(vec![])),
        ..Default::default()
    };
    dc.validate().unwrap()
}

#[test]
#[should_panic]
fn test_invalid_docker_compose_service() {
    let dc = DevContainer {
        docker_compose_file: Some(DockerComposeFile::File("docker-compose.yaml".to_string())),
        service: None,
        ..Default::default()
    };
    dc.validate().unwrap()
}

#[test]
#[should_panic]
fn test_invalid_docker_compose_service_empty_string() {
    let dc = DevContainer {
        docker_compose_file: Some(DockerComposeFile::File("docker-compose.yaml".to_string())),
        service: Some("".to_string()),
        ..Default::default()
    };
    dc.validate().unwrap()
}

#[test]
fn no_source_is_rejected_with_its_message() {
    let dc = DevContainer::default();
    assert_eq!(
        invalid_config(&dc),
        "Please specify at least one of: image, dockerComposeFile or build"
    );
}

#[test]
fn two_sources_are_rejected_with_their_message() {
    let dc = DevContainer {
        image: Some("x".to_string()),
        docker_compose_file: Some(DockerComposeFile::File("y.yml".to_string())),
        service: Some("app".to_string()),
        ..Default::default()
    };
    assert_eq!(
        invalid_config(&dc),
        "Please specify only one of: image, dockerComposeFile or build"
    );
    let dc = DevContainer {
        image: Some("x".to_string()),
        build: Some(BuildOpts {
            dockerfile: "Dockerfile".to_string(),
            context: None,
            args: None,
            target: None,
        }),
        ..Default::default()
    };
    assert_eq!(
        invalid_config(&dc),
        "Please specify only one of: image, dockerComposeFile or build"
    );
}

#[test]
fn each_single_source_is_accepted() {
    let image = DevContainer {
        image: Some("foo".to_string()),
        ..Default::default()
    };
    assert!(image.validate().is_ok());
    let build = DevContainer {
        build: Some(BuildOpts {
            dockerfile: "Dockerfile".to_string(),
            context: None,
            args: None,
            target: None,
        }),
        ..Default::default()
    };
    assert!(build.validate().is_ok());
    let compose = DevContainer {
        docker_compose_file: Some(DockerComposeFile::Files(vec!["a.yml".to_string()])),
        service: Some("app".to_string()),
        ..Default::default()
    };
    assert!(compose.validate().is_ok());
}

#[test]
fn a_blank_image_is_rejected_and_quoted() {
    let dc = DevContainer {
        image: Some(" \t\u{a0}".to_string()),
        ..Default::default()
    };
    assert_eq!(invalid_config(&dc), "Invalid image: ' \t\u{a0}'");
    let dc = DevContainer {
        image: Some("".to_string()),
        ..Default::default()
    };
    assert_eq!(invalid_config(&dc), "Invalid image: ''");
}

#[test]
fn a_blank_dockerfile_is_rejected_and_quoted() {
    let dc = DevContainer {
        build: Some(BuildOpts {
            dockerfile: "  ".to_string(),
            context: None,
            args: None,
            target: None,
        }),
        ..Default::default()
    };
    assert_eq!(invalid_config(&dc), "Invalid docker file: '  '");
}

#[test]
fn a_compose_file_needs_a_name_and_a_service() {
    let dc = DevContainer {
        docker_compose_file: Some(DockerComposeFile::File(" ".to_string())),
        service: Some("app".to_string()),
        ..Default::default()
    };
    assert_eq!(invalid_config(&dc), "Invalid docker-compose file");
    let dc = DevContainer {
        docker_compose_file: Some(DockerComposeFile::Files(vec![])),
        service: Some("app".to_string()),
        ..Default::default()
    };
    assert_eq!(invalid_config(&dc), "Invalid docker-compose file");
    let dc = DevContainer {
        docker_compose_file: Some(DockerComposeFile::File("c.yml".to_string())),
        ..Default::default()
    };
    assert_eq!(invalid_config(&dc), "Invalid service!");
    let dc = DevContainer {
        docker_compose_file: Some(DockerComposeFile::File("c.yml".to_string())),
        service: Some("".to_string()),
        ..Default::default()
    };
    assert_eq!(invalid_config(&dc), "Invalid service!");
    let dc = DevContainer {
        docker_compose_file: Some(DockerComposeFile::File("c.yml".to_string())),
        service: Some(" ".to_string()),
        ..Default::default()
    };
    assert!(dc.validate().is_ok());
}

#[test]
fn the_mode_follows_the_source() {
    let image = DevContainer {
        image: Some("foo".to_string()),
        ..Default::default()
    };
    assert_eq!(image.get_mode(), Mode::Image);
    let build = DevContainer {
        build: Some(BuildOpts {
            dockerfile: "Dockerfile".to_string(),
            context: None,
            args: None,
            target: None,
        }),
        ..Default::default()
    };
    assert_eq!(build.get_mode(), Mode::Build);
    let compose = DevContainer {
        docker_compose_file: Some(DockerComposeFile::File("c.yml".to_string())),
        service: Some("app".to_string()),
        ..Default::default()
    };
    assert_eq!(compose.get_mode(), Mode::Compose);
    assert_eq!(DevContainer::default().get_mode(), Mode::Compose);
}

#[test]
fn the_default_descriptor_overrides_the_command() {
    assert!(default_true());
    let dc = DevContainer::default();
    assert!(dc.override_command);
    assert!(dc.name.is_none());
    assert!(dc.shutdown_action.is_none());
    assert_eq!(dc.dev_port, 0);
    assert!(!dc.update_remote_user_uid);
    assert!(matches!(dc.app_port, None::<AppPort>));
}

#[test]
fn the_name_is_the_descriptors_or_the_directorys() {
    let path = ProjectPath {
        text: "/home/me/work".to_string(),
        file_name: Some("work".to_string()),
    };
    let named = DevContainer {
        name: Some("demo".to_string()),
        ..Default::default()
    };
    assert_eq!(named.get_name(&path), "demo");
    assert_eq!(DevContainer::default().get_name(&path), "work");
    let root = ProjectPath {
        text: "/".to_string(),
        file_name: None,
    };
    assert_eq!(named.get_name(&root), "demo");
}

#[test]
fn a_command_line_is_one_argument() {
    let line = CommandLineVec::Line("echo hi".to_string());
    assert_eq!(line.to_args_vec(), vec!["echo hi".to_string()]);
}

#[test]
fn a_command_list_is_itself() {
    let args = CommandLineVec::Args(vec!["echo".to_string(), "hi".to_string()]);
    assert_eq!(
        args.to_args_vec(),
        vec!["echo".to_string(), "hi".to_string()]
    );
    let empty = CommandLineVec::Args(vec![]);
    assert!(empty.to_args_vec().is_empty());
}

#[test]
fn shutdown_actions_are_read_whatever_their_case() {
    assert_eq!(ShutdownAction::parse("none"), Ok(ShutdownAction::Nothing));
    assert_eq!(ShutdownAction::parse("NONE"), Ok(ShutdownAction::Nothing));
    assert_eq!(
        ShutdownAction::parse("stopContainer"),
        Ok(ShutdownAction::StopContainer)
    );
    assert_eq!(
        ShutdownAction::parse("STOPCONTAINER"),
        Ok(ShutdownAction::StopContainer)
    );
    assert_eq!(
        ShutdownAction::parse("stopcompose"),
        Ok(ShutdownAction::StopCompose)
    );
    assert_eq!(
        ShutdownAction::parse("StopCompose"),
        Ok(ShutdownAction::StopCompose)
    );
}

#[test]
fn an_unknown_shutdown_action_is_rejected_and_quoted() {
    assert_eq!(
        ShutdownAction::parse("Halt"),
        Err("Invalid shutdown action 'Halt'".to_string())
    );
    assert_eq!(
        ShutdownAction::parse(""),
        Err("Invalid shutdown action ''".to_string())
    );
    assert_eq!(
        ShutdownAction::parse(" none"),
        Err("Invalid shutdown action ' none'".to_string())
    );
}
