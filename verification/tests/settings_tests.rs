use devcontainer::errors::Error;
use devcontainer::settings::{Settings, SettingsFile};
use devcontainer::settings_compose_model::{Service, SettingsComposeModel};
use devcontainer::string_map::{StringMap, TextMap};

fn env_of(pairs: &[(&str, &str)]) -> TextMap {
    let mut map: TextMap = StringMap::new();
    for (key, value) in pairs {
        map.insert(key.to_string(), value.to_string());
    }
    map
}

fn pairs_of(map: &TextMap) -> Vec<(String, String)> {
    let mut entries = Vec::new();
    let mut i = 0;
    while i < map.len() {
        entries.push((map.key_at(i).clone(), map.value_at(i).clone()));
        i += 1;
    }
    entries
}

#[test]
fn missing_settings_are_empty_settings() {
    let settings = Settings::load(SettingsFile::Missing).unwrap();
    assert!(settings.application.is_none());
    assert!(settings.mounts.is_none());
    assert!(settings.envs.is_none());
    assert!(settings.post_create_command.is_none());
    assert!(settings.post_start_command.is_none());
    assert!(settings.post_attach_command.is_none());
    assert!(settings.forward_ports.is_none());
}

#[test]
fn unreadable_settings_are_invalid_settings() {
    match Settings::load(SettingsFile::Unreadable("permission denied".to_string())) {
        Err(Error::InvalidSettings(why)) => assert_eq!(why, "permission denied"),
        _ => panic!("unreadable settings were accepted"),
    }
}

#[test]
fn malformed_settings_are_a_json5_error() {
    match Settings::load(SettingsFile::Malformed("line 3".to_string())) {
        Err(e) => {
            assert!(matches!(e, Error::JSON5Error(_)));
            assert_eq!(e.message(), "Error trying to load settings: line 3");
        }
        Ok(_) => panic!("malformed settings were accepted"),
    }
}

#[test]
fn parsed_settings_are_taken_as_they_are() {
    let given = Settings {
        forward_ports: Some(vec![3000]),
        mounts: Some(vec!["/a:/b".to_string()]),
        ..Settings::default()
    };
    let settings = Settings::load(SettingsFile::Parsed(given)).unwrap();
    assert_eq!(settings.forward_ports, Some(vec![3000]));
    assert_eq!(settings.mounts, Some(vec!["/a:/b".to_string()]));
}

#[test]
fn the_overlay_holds_one_service() {
    let settings = Settings {
        forward_ports: Some(vec![3000, 9229]),
        mounts: Some(vec!["/home/me/.ssh:/root/.ssh".to_string()]),
        envs: Some(env_of(&[("EDITOR", "vim"), ("DEVCONTAINER_PROJECT", "mine")])),
        ..Settings::default()
    };
    let made = settings.generate_compose_override(
        "app".to_string(),
        "3.8".to_string(),
        Some(env_of(&[
            ("DEVCONTAINER_PROJECT", "demo"),
            ("DEVCONTAINER_APPLICATION_PORT", "40123"),
        ])),
        Some(vec![40123]),
    );
    assert_eq!(made.file_name, "app-compose.yml");
    assert_eq!(made.model.version, "3.8");
    assert_eq!(made.model.services.len(), 1);
    let (name, service) = &made.model.services[0];
    assert_eq!(name, "app");
    assert_eq!(
        service.ports,
        Some(vec![
            "3000:3000".to_string(),
            "9229:9229".to_string(),
            "40123:40123".to_string(),
        ])
    );
    assert_eq!(
        service.volumes,
        Some(vec!["/home/me/.ssh:/root/.ssh".to_string()])
    );
    assert_eq!(
        pairs_of(service.environment.as_ref().unwrap()),
        vec![
            ("DEVCONTAINER_PROJECT".to_string(), "mine".to_string()),
            ("DEVCONTAINER_APPLICATION_PORT".to_string(), "40123".to_string()),
            ("EDITOR".to_string(), "vim".to_string()),
        ]
    );
}

#[test]
fn the_overlay_of_empty_settings_is_bare() {
    let made = Settings::default().generate_compose_override(
        "db".to_string(),
        "2".to_string(),
        None,
        None,
    );
    assert_eq!(made.file_name, "db-compose.yml");
    let (name, service) = &made.model.services[0];
    assert_eq!(name, "db");
    assert_eq!(service.ports, Some(vec![]));
    assert_eq!(service.volumes, None);
    assert_eq!(service.environment.as_ref().unwrap().len(), 0);
}

#[test]
fn compose_models_start_empty() {
    let model = SettingsComposeModel::default();
    assert_eq!(model.version, "");
    assert!(model.services.is_empty());
    let service = Service::default();
    assert!(service.volumes.is_none());
    assert!(service.ports.is_none());
    assert!(service.environment.is_none());
}
