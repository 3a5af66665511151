//! The descriptor of a development container and the rules it must meet.

use vstd::prelude::*;
use vstd::string::*;
use crate::errors::{Error, ErrorView};
use crate::paths::ProjectPath;
use crate::string_map::TextMap;
use crate::text::{blank, concat, is_blank, lowered, same_text_ignoring_case};

verus! {

/// The value of `overrideCommand` where the descriptor leaves it out.
pub fn default_true() -> (yes: bool)
    ensures
        yes,
{
    true
}

/// How a descriptor asks for its image to be built.
#[derive(Debug)]
pub struct BuildOpts {
    /// The Dockerfile, relative to the descriptor's folder.
    pub dockerfile: String,
    pub context: Option<String>,
    pub args: Option<TextMap>,
    pub target: Option<String>,
}

/// The application's port or ports, as a descriptor may write them.
#[derive(Debug)]
pub enum AppPort {
    Port(u32),
    Ports(Vec<u32>),
    PortStr(String),
}

/// One compose file or several.
#[derive(Debug)]
pub enum DockerComposeFile {
    File(String),
    Files(Vec<String>),
}

/// A command: one line for a shell, or a program and its arguments.
#[derive(Debug)]
pub enum CommandLineVec {
    Line(String),
    Args(Vec<String>),
}

/// What is stopped when the launcher ends after `up`.
#[derive(Clone, Copy, Debug, PartialEq, Eq, Structural)]
pub enum ShutdownAction {
    /// Nothing is stopped; the descriptor writes it `none`.
    Nothing,
    StopContainer,
    StopCompose,
}

/// The three ways of provisioning, of which a descriptor picks one.
#[derive(Clone, Copy, Debug, PartialEq, Eq, Structural)]
pub enum Mode {
    Image,
    Build,
    Compose,
}

/// A descriptor, as read from the project.
#[derive(Debug)]
pub struct DevContainer {
    pub name: Option<String>,
    pub image: Option<String>,
    pub build: Option<BuildOpts>,
    pub app_port: Option<AppPort>,
    pub container_env: Option<TextMap>,
    pub remote_env: Option<TextMap>,
    pub container_user: Option<String>,
    pub remote_user: Option<String>,
    pub update_remote_user_uid: bool,
    pub mounts: Option<Vec<String>>,
    pub workspace_mount: Option<String>,
    pub run_args: Option<Vec<String>>,
    pub override_command: bool,
    pub shutdown_action: Option<ShutdownAction>,
    pub docker_compose_file: Option<DockerComposeFile>,
    pub service: Option<String>,
    pub run_services: Option<Vec<String>>,
    pub forward_ports: Option<Vec<i32>>,
    pub post_create_command: Option<CommandLineVec>,
    pub post_start_command: Option<CommandLineVec>,
    pub post_attach_command: Option<CommandLineVec>,
    pub initialize_command: Option<CommandLineVec>,
    pub dev_port: i32,
}

impl Default for DevContainer {
    /// The descriptor that sets nothing: no field is given, and the command
    /// of the container is overridden.
    fn default() -> (dc: DevContainer)
        ensures
            dc.name is None,
            dc.image is None,
            dc.build is None,
            dc.app_port is None,
            dc.container_env is None,
            dc.remote_env is None,
            dc.container_user is None,
            dc.remote_user is None,
            !dc.update_remote_user_uid,
            dc.mounts is None,
            dc.workspace_mount is None,
            dc.run_args is None,
            dc.override_command,
            dc.shutdown_action is None,
            dc.docker_compose_file is None,
            dc.service is None,
            dc.run_services is None,
            dc.forward_ports is None,
            dc.post_create_command is None,
            dc.post_start_command is None,
            dc.post_attach_command is None,
            dc.initialize_command is None,
            dc.dev_port == 0,
    {
        DevContainer {
            name: None,
            image: None,
            build: None,
            app_port: None,
            container_env: None,
            remote_env: None,
            container_user: None,
            remote_user: None,
            update_remote_user_uid: false,
            mounts: None,
            workspace_mount: None,
            run_args: None,
            override_command: default_true(),
            shutdown_action: None,
            docker_compose_file: None,
            service: None,
            run_services: None,
            forward_ports: None,
            post_create_command: None,
            post_start_command: None,
            post_attach_command: None,
            initialize_command: None,
            dev_port: 0,
        }
    }
}

impl ShutdownAction {
    /// The action that `text` names, the case of its letters set aside.
    pub open spec fn named_by(text: Seq<char>) -> Option<ShutdownAction> {
        if lowered(text) == lowered("none"@) {
            Some(ShutdownAction::Nothing)
        } else if lowered(text) == lowered("stopContainer"@) {
            Some(ShutdownAction::StopContainer)
        } else if lowered(text) == lowered("stopCompose"@) {
            Some(ShutdownAction::StopCompose)
        } else {
            None
        }
    }

    /// Reads a shutdown action. A text that names none is rejected, with a
    /// message that quotes it.
    pub fn parse(text: &str) -> (action: Result<ShutdownAction, String>)
        ensures
            match action {
                Ok(a) => ShutdownAction::named_by(text@) == Some(a),
                Err(m) => ShutdownAction::named_by(text@) is None && m@
                    == "Invalid shutdown action '"@ + text@ + "'"@,
            },
    {
        if same_text_ignoring_case(text, "none") {
            Ok(ShutdownAction::Nothing)
        } else if same_text_ignoring_case(text, "stopContainer") {
            Ok(ShutdownAction::StopContainer)
        } else if same_text_ignoring_case(text, "stopCompose") {
            Ok(ShutdownAction::StopCompose)
        } else {
            let mut m = concat("Invalid shutdown action '", text);
            m.append("'");
            Err(m)
        }
    }
}

impl CommandLineVec {
    /// The argument vector of the command: a line is one argument, whole, for
    /// a shell to read; a list of arguments is itself.
    pub open spec fn args(&self) -> Seq<Seq<char>> {
        match self {
            CommandLineVec::Line(line) => seq![line@],
            CommandLineVec::Args(args) => args.deep_view(),
        }
    }

    pub fn to_args_vec(&self) -> (args: Vec<String>)
        ensures
            args.deep_view() == self.args(),
    {
        match self {
            CommandLineVec::Line(line) => {
                let mut args: Vec<String> = Vec::new();
                args.push(line.clone());
                assert(args.deep_view() =~= seq![line@]);
                args
            },
            CommandLineVec::Args(given) => {
                let args = given.clone();
                assert(args.deep_view() =~= given.deep_view());
                args
            },
        }
    }
}

impl DockerComposeFile {
    /// Whether no file is named: a single name that is blank, or an empty
    /// list.
    pub open spec fn names_nothing(&self) -> bool {
        match self {
            DockerComposeFile::File(file) => is_blank(file@),
            DockerComposeFile::Files(files) => files@.len() == 0,
        }
    }
}

impl DevContainer {
    /// How many of `image`, `build` and `dockerComposeFile` are given.
    pub open spec fn source_count(&self) -> nat {
        let image: nat = if self.image is Some {
            1
        } else {
            0
        };
        let build: nat = if self.build is Some {
            1
        } else {
            0
        };
        let compose: nat = if self.docker_compose_file is Some {
            1
        } else {
            0
        };
        image + build + compose
    }

    /// The first rule that the descriptor breaks, in words; `None` for a
    /// descriptor that breaks none.
    pub open spec fn violation(&self) -> Option<Seq<char>> {
        if self.source_count() > 1 {
            Some("Please specify only one of: image, dockerComposeFile or build"@)
        } else if self.source_count() == 0 {
            Some("Please specify at least one of: image, dockerComposeFile or build"@)
        } else if self.image is Some && is_blank(self.image->0@) {
            Some("Invalid image: '"@ + self.image->0@ + "'"@)
        } else if self.build is Some && is_blank(self.build->0.dockerfile@) {
            Some("Invalid docker file: '"@ + self.build->0.dockerfile@ + "'"@)
        } else if self.docker_compose_file is Some
            && self.docker_compose_file->0.names_nothing() {
            Some("Invalid docker-compose file"@)
        } else if self.docker_compose_file is Some && (self.service is None
            || self.service->0@.len() == 0) {
            Some("Invalid service!"@)
        } else {
            None
        }
    }

    /// A descriptor is valid when it breaks no rule.
    pub open spec fn valid(&self) -> bool {
        self.violation() is None
    }

    /// The mode of the descriptor: `Image` where an image is given, else
    /// `Build` where a build is given, else `Compose`.
    pub open spec fn mode(&self) -> Mode {
        if self.image is Some {
            Mode::Image
        } else if self.build is Some {
            Mode::Build
        } else {
            Mode::Compose
        }
    }

    pub fn get_mode(&self) -> (mode: Mode)
        ensures
            mode == self.mode(),
    {
        if self.image.is_some() {
            Mode::Image
        } else if self.build.is_some() {
            Mode::Build
        } else {
            Mode::Compose
        }
    }

    /// Checks the descriptor against its rules. Exactly one of image, build
    /// and compose file must be given, none of them blank, and a compose file
    /// needs a service. The first broken rule is reported as `InvalidConfig`.
    pub fn validate(&self) -> (checked: Result<(), Error>)
        ensures
            match checked {
                Ok(()) => self.violation() is None,
                Err(e) => self.violation() is Some && e@ == ErrorView::InvalidConfig(
                    self.violation()->0,
                ),
            },
            checked is Ok ==> self.source_count() == 1,
            self.source_count() != 1 ==> checked is Err,
    {
        let mut sources: u8 = 0;
        if self.image.is_some() {
            sources = sources + 1;
        }
        if self.docker_compose_file.is_some() {
            sources = sources + 1;
        }
        if self.build.is_some() {
            sources = sources + 1;
        }
        if sources > 1 {
            return Err(
                Error::InvalidConfig(
                    String::from_str(
                        "Please specify only one of: image, dockerComposeFile or build",
                    ),
                ),
            );
        }
        if sources == 0 {
            return Err(
                Error::InvalidConfig(
                    String::from_str(
                        "Please specify at least one of: image, dockerComposeFile or build",
                    ),
                ),
            );
        }
        if let Some(img) = &self.image {
            if blank(img.as_str()) {
                let mut m = concat("Invalid image: '", img.as_str());
                m.append("'");
                return Err(Error::InvalidConfig(m));
            }
        }
        if let Some(opts) = &self.build {
            if blank(opts.dockerfile.as_str()) {
                let mut m = concat("Invalid docker file: '", opts.dockerfile.as_str());
                m.append("'");
                return Err(Error::InvalidConfig(m));
            }
        }
        if let Some(compose) = &self.docker_compose_file {
            let nothing = match compose {
                DockerComposeFile::File(file) => blank(file.as_str()),
                DockerComposeFile::Files(files) => files.len() == 0,
            };
            if nothing {
                return Err(Error::InvalidConfig(String::from_str("Invalid docker-compose file")));
            }
            let no_service = match &self.service {
                None => true,
                Some(s) => s.as_str().unicode_len() == 0,
            };
            if no_service {
                return Err(Error::InvalidConfig(String::from_str("Invalid service!")));
            }
        }
        Ok(())
    }

    /// The name of the project: the descriptor's name where it gives one,
    /// else the name of the project's directory.
    pub open spec fn project_name(&self, path: &ProjectPath) -> Seq<char> {
        if self.name is Some {
            self.name->0@
        } else {
            path.file_name->0@
        }
    }

    pub fn get_name(&self, path: &ProjectPath) -> (name: String)
        requires
            self.name is None ==> path.file_name is Some,
        ensures
            name@ == self.project_name(path),
    {
        match &self.name {
            Some(name) => name.clone(),
            None => match &path.file_name {
                Some(dir) => dir.clone(),
                None => String::new(),
            },
        }
    }
}

} // verus!
