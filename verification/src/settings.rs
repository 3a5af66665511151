//! The user's own settings, which are laid over every project: mounts,
//! environment, forwarded ports, hooks and a companion application.

use vstd::prelude::*;
use vstd::string::*;
use crate::devcontainer::CommandLineVec;
use crate::errors::{Error, ErrorView};
use crate::settings_compose_model::{
    Service, ServiceView, SettingsComposeModel, SettingsComposeModelView,
};
use crate::string_map::{distinct_keys, has_key, lemma_overlay, overlay, value_of, Entries, TextMap};
use crate::text::{concat, copy_texts_option, decimal, decimal_text, no_texts, push_text};

verus! {

/// The companion application that is started beside the container.
#[derive(Debug)]
pub struct Application {
    pub cmd: CommandLineVec,
}

/// The user's settings.
#[derive(Debug)]
pub struct Settings {
    pub application: Option<Application>,
    pub mounts: Option<Vec<String>>,
    pub envs: Option<TextMap>,
    pub post_create_command: Option<CommandLineVec>,
    pub post_start_command: Option<CommandLineVec>,
    pub post_attach_command: Option<CommandLineVec>,
    pub forward_ports: Option<Vec<i32>>,
}

/// What was found where the user's settings are kept.
#[derive(Debug)]
pub enum SettingsFile {
    /// There is no settings file.
    Missing,
    /// The file is there and could not be read.
    Unreadable(String),
    /// The file was read and is no valid settings document.
    Malformed(String),
    /// The settings that the file holds.
    Parsed(Settings),
}

/// A compose overlay and the name of the file it is written to.
#[derive(Debug)]
pub struct ComposeOverride {
    /// The name of the file, without a directory: the overlay is written
    /// into the system's directory for temporary files, over any earlier one.
    pub file_name: String,
    pub model: SettingsComposeModel,
}

/// `ComposeOverride` over texts.
pub struct ComposeOverrideView {
    pub file_name: Seq<char>,
    pub model: SettingsComposeModelView,
}

impl View for ComposeOverride {
    type V = ComposeOverrideView;

    open spec fn view(&self) -> ComposeOverrideView {
        ComposeOverrideView { file_name: self.file_name@, model: self.model@ }
    }
}

impl Default for Settings {
    /// The settings of a user who has set nothing.
    fn default() -> (settings: Settings)
        ensures
            settings == Settings::empty(),
    {
        Settings {
            application: None,
            mounts: None,
            envs: None,
            post_create_command: None,
            post_start_command: None,
            post_attach_command: None,
            forward_ports: None,
        }
    }
}

/// A port published under its own number: `PORT:PORT`.
pub open spec fn port_pair(port: int) -> Seq<char> {
    decimal(port) + seq![':'] + decimal(port)
}

/// Each port of `ports` published under its own number.
pub open spec fn port_pairs(ports: Seq<i32>) -> Seq<Seq<char>> {
    Seq::new(ports.len(), |i: int| port_pair(ports[i] as int))
}

/// The ports of an optional list, published under their own numbers.
pub open spec fn optional_port_pairs(ports: Option<Seq<i32>>) -> Seq<Seq<char>> {
    match ports {
        Some(list) => port_pairs(list),
        None => Seq::empty(),
    }
}

/// The entries of an optional map.
pub open spec fn optional_entries(map: Option<Entries>) -> Entries {
    match map {
        Some(entries) => entries,
        None => Seq::empty(),
    }
}

fn push_port_pairs(list: &mut Vec<String>, ports: &Vec<i32>)
    ensures
        final(list).deep_view() == old(list).deep_view() + port_pairs(ports@),
{
    let mut i: usize = 0;
    assert(list.deep_view() + port_pairs(ports@).take(0) =~= list.deep_view());
    while i < ports.len()
        invariant
            i <= ports.len(),
            list.deep_view() == old(list).deep_view() + port_pairs(ports@).take(i as int),
        decreases ports.len() - i,
    {
        let number = decimal_text(ports[i] as i64);
        let mut pair = concat(number.as_str(), ":");
        pair.append(number.as_str());
        proof {
            reveal_strlit(":");
            assert(":"@ =~= seq![':']);
            assert(pair@ == port_pairs(ports@)[i as int]);
            assert(port_pairs(ports@).take(i + 1) =~= port_pairs(ports@).take(i as int).push(
                pair@,
            ));
            assert(old(list).deep_view() + port_pairs(ports@).take(i as int).push(pair@) =~= (old(
                list,
            ).deep_view() + port_pairs(ports@).take(i as int)).push(pair@));
        }
        push_text(list, pair);
        i = i + 1;
    }
    assert(port_pairs(ports@).take(i as int) =~= port_pairs(ports@));
}

impl Settings {
    /// The settings with nothing set.
    pub open spec fn empty() -> Settings {
        Settings {
            application: None,
            mounts: None,
            envs: None,
            post_create_command: None,
            post_start_command: None,
            post_attach_command: None,
            forward_ports: None,
        }
    }

    /// The settings that `file` gives. A missing file gives the empty
    /// settings; a file that cannot be read or understood is an error.
    pub open spec fn loaded(file: SettingsFile) -> Result<Settings, ErrorView> {
        match file {
            SettingsFile::Missing => Ok(Settings::empty()),
            SettingsFile::Unreadable(why) => Err(ErrorView::InvalidSettings(why@)),
            SettingsFile::Malformed(why) => Err(ErrorView::JSON5Error(why@)),
            SettingsFile::Parsed(settings) => Ok(settings),
        }
    }

    pub fn load(file: SettingsFile) -> (loaded: Result<Settings, Error>)
        ensures
            match Settings::loaded(file) {
                Ok(settings) => loaded == Ok::<Settings, Error>(settings),
                Err(e) => loaded is Err && loaded->Err_0@ == e,
            },
    {
        match file {
            SettingsFile::Missing => Ok(Settings::default()),
            SettingsFile::Unreadable(why) => Err(Error::InvalidSettings(why)),
            SettingsFile::Malformed(why) => Err(Error::JSON5Error(why)),
            SettingsFile::Parsed(settings) => Ok(settings),
        }
    }

    /// The ports that the overlay publishes: the forwarded ports of the
    /// settings, then `ext_ports`.
    pub open spec fn overlay_ports(&self, ext_ports: Option<Seq<i32>>) -> Seq<Seq<char>> {
        optional_port_pairs(self.forward_ports.deep_view()) + optional_port_pairs(ext_ports)
    }

    /// The environment of the overlay: `envs` with the environment of the
    /// settings laid over it.
    pub open spec fn overlay_environment(&self, envs: Option<Entries>) -> Entries {
        overlay(optional_entries(envs), optional_entries(self.envs.deep_view()))
    }

    /// The overlay for the service `service_name` of a compose document of
    /// the schema `version`.
    pub open spec fn compose_override(
        &self,
        service_name: Seq<char>,
        version: Seq<char>,
        envs: Option<Entries>,
        ext_ports: Option<Seq<i32>>,
    ) -> ComposeOverrideView {
        ComposeOverrideView {
            file_name: service_name + "-compose.yml"@,
            model: SettingsComposeModelView {
                version,
                services: seq![
                    (
                        service_name,
                        ServiceView {
                            volumes: self.mounts.deep_view(),
                            ports: Some(self.overlay_ports(ext_ports)),
                            environment: Some(self.overlay_environment(envs)),
                        },
                    ),
                ],
            },
        }
    }

    /// Builds the compose overlay that brings these settings into the
    /// service `service_name`: its ports, its volumes and its environment. In
    /// the environment a variable of the settings wins over one of `envs`.
    pub fn generate_compose_override(
        &self,
        service_name: String,
        version: String,
        envs: Option<TextMap>,
        ext_ports: Option<Vec<i32>>,
    ) -> (made: ComposeOverride)
        ensures
            made@ == self.compose_override(
                service_name@,
                version@,
                envs.deep_view(),
                ext_ports.deep_view(),
            ),
            distinct_keys(self.overlay_environment(envs.deep_view())),
            forall|key: Seq<char>|
                #![trigger value_of(self.overlay_environment(envs.deep_view()), key)]
                value_of(self.overlay_environment(envs.deep_view()), key) == if has_key(
                    optional_entries(self.envs.deep_view()),
                    key,
                ) {
                    value_of(optional_entries(self.envs.deep_view()), key)
                } else {
                    value_of(optional_entries(envs.deep_view()), key)
                },
    {
        let mut environment = match envs {
            Some(given) => given,
            None => TextMap::new(),
        };
        let ghost base = environment@;
        environment.distinct();
        match &self.envs {
            Some(own) => {
                own.distinct();
                proof {
                    lemma_overlay(base, own@);
                }
                environment.extend(own);
            },
            None => {
                proof {
                    lemma_overlay(base, Entries::empty());
                }
            },
        }
        let mut ports = no_texts();
        match &self.forward_ports {
            Some(own) => {
                push_port_pairs(&mut ports, own);
            },
            None => {},
        }
        let ghost own_ports = ports.deep_view();
        match &ext_ports {
            Some(more) => {
                push_port_pairs(&mut ports, more);
            },
            None => {},
        }
        proof {
            assert(own_ports =~= optional_port_pairs(self.forward_ports.deep_view()));
            assert(ports.deep_view() =~= self.overlay_ports(ext_ports.deep_view()));
        }
        let service = Service {
            volumes: copy_texts_option(&self.mounts),
            ports: Some(ports),
            environment: Some(environment),
        };
        let file_name = concat(service_name.as_str(), "-compose.yml");
        let mut services: Vec<(String, Service)> = Vec::new();
        services.push((service_name, service));
        assert(services.deep_view() =~= seq![(service_name@, service@)]);
        ComposeOverride { file_name, model: SettingsComposeModel { version, services } }
    }
}

} // verus!
