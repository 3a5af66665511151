//! The failures of the launcher, each with the text shown to the user.

use vstd::prelude::*;
use vstd::string::*;
use vstd::std_specs::convert::FromSpecImpl;

verus! {

/// Failures while bringing the environment up.
#[derive(Debug)]
pub enum UpError {
    /// No container could be created or found after creation.
    ContainerCreate(String),
    /// The companion application could not be started, or ended in failure.
    ApplicationSpawn(String),
    /// Pulling or building the image failed; holds the first failure of the
    /// event stream.
    ImagePull(String),
    /// The compose command could not be run, or ended in failure.
    ComposeError(String),
}

/// Failures while taking the environment down.
#[derive(Debug)]
pub enum DownError {
    /// The compose `stop` command could not be run, or ended in failure.
    ComposeError(String),
}

/// Every failure the launcher reports.
#[derive(Debug)]
pub enum Error {
    /// The descriptor file is missing; holds its path.
    ConfigDoesNotExist(String),
    /// The descriptor could not be read, or breaks a rule of the descriptor.
    InvalidConfig(String),
    UpError(UpError),
    /// The container runtime could not be reached, or refused a request.
    DockerError(String),
    DownError(DownError),
    /// A command was given before any descriptor was loaded.
    NoDevContainer,
    /// The user settings could not be read.
    InvalidSettings(String),
    /// A command run inside the container ended in failure.
    ExecCommandError(String),
    /// The compose overlay could not be written as YAML.
    YamlError(String),
    /// The user settings are no valid JSON5.
    JSON5Error(String),
    /// A file could not be read or written.
    IOError(String),
    /// Anything else.
    Other(String),
}

/// `UpError` over texts.
pub enum UpErrorView {
    ContainerCreate(Seq<char>),
    ApplicationSpawn(Seq<char>),
    ImagePull(Seq<char>),
    ComposeError(Seq<char>),
}

/// `DownError` over texts.
pub enum DownErrorView {
    ComposeError(Seq<char>),
}

/// `Error` over texts.
pub enum ErrorView {
    ConfigDoesNotExist(Seq<char>),
    InvalidConfig(Seq<char>),
    UpError(UpErrorView),
    DockerError(Seq<char>),
    DownError(DownErrorView),
    NoDevContainer,
    InvalidSettings(Seq<char>),
    ExecCommandError(Seq<char>),
    YamlError(Seq<char>),
    JSON5Error(Seq<char>),
    IOError(Seq<char>),
    Other(Seq<char>),
}

impl View for UpError {
    type V = UpErrorView;

    open spec fn view(&self) -> UpErrorView {
        match self {
            UpError::ContainerCreate(m) => UpErrorView::ContainerCreate(m@),
            UpError::ApplicationSpawn(m) => UpErrorView::ApplicationSpawn(m@),
            UpError::ImagePull(m) => UpErrorView::ImagePull(m@),
            UpError::ComposeError(m) => UpErrorView::ComposeError(m@),
        }
    }
}

impl View for DownError {
    type V = DownErrorView;

    open spec fn view(&self) -> DownErrorView {
        match self {
            DownError::ComposeError(m) => DownErrorView::ComposeError(m@),
        }
    }
}

impl View for Error {
    type V = ErrorView;

    open spec fn view(&self) -> ErrorView {
        match self {
            Error::ConfigDoesNotExist(m) => ErrorView::ConfigDoesNotExist(m@),
            Error::InvalidConfig(m) => ErrorView::InvalidConfig(m@),
            Error::UpError(e) => ErrorView::UpError(e@),
            Error::DockerError(m) => ErrorView::DockerError(m@),
            Error::DownError(e) => ErrorView::DownError(e@),
            Error::NoDevContainer => ErrorView::NoDevContainer,
            Error::InvalidSettings(m) => ErrorView::InvalidSettings(m@),
            Error::ExecCommandError(m) => ErrorView::ExecCommandError(m@),
            Error::YamlError(m) => ErrorView::YamlError(m@),
            Error::JSON5Error(m) => ErrorView::JSON5Error(m@),
            Error::IOError(m) => ErrorView::IOError(m@),
            Error::Other(m) => ErrorView::Other(m@),
        }
    }
}

impl UpErrorView {
    /// The text shown for the failure.
    pub open spec fn text(self) -> Seq<char> {
        match self {
            UpErrorView::ContainerCreate(m) => "Failed to create container: "@ + m,
            UpErrorView::ApplicationSpawn(m) => "Failed to spawn application: "@ + m,
            UpErrorView::ImagePull(m) => "Failed while trying to pull docker image: "@ + m,
            UpErrorView::ComposeError(m) => "Failed to run docker-compose: "@ + m,
        }
    }
}

impl DownErrorView {
    /// The text shown for the failure.
    pub open spec fn text(self) -> Seq<char> {
        match self {
            DownErrorView::ComposeError(m) => "Failed to stop docker-compose: "@ + m,
        }
    }
}

impl ErrorView {
    /// The text shown for the failure. A failure that only carries another
    /// one shows that one's text.
    pub open spec fn text(self) -> Seq<char> {
        match self {
            ErrorView::ConfigDoesNotExist(m) => "Config file does not exist: "@ + m,
            ErrorView::InvalidConfig(m) => "Config is not valid: "@ + m,
            ErrorView::UpError(e) => e.text(),
            ErrorView::DockerError(m) => "Error trying to communicate with docker: "@ + m,
            ErrorView::DownError(e) => e.text(),
            ErrorView::NoDevContainer => "No devcontainer project found"@,
            ErrorView::InvalidSettings(m) => "Error trying to parse settings: "@ + m,
            ErrorView::ExecCommandError(m) => "Error trying to execute command: "@ + m,
            ErrorView::YamlError(m) => m,
            ErrorView::JSON5Error(m) => "Error trying to load settings: "@ + m,
            ErrorView::IOError(m) => m,
            ErrorView::Other(m) => "Unexpected error: "@ + m,
        }
    }
}

fn prefixed(prefix: &str, detail: &String) -> (t: String)
    ensures
        t@ == prefix@ + detail@,
{
    let mut t = String::from_str(prefix);
    t.append(detail.as_str());
    t
}

impl UpError {
    /// The text shown for the failure.
    pub fn message(&self) -> (m: String)
        ensures
            m@ == self@.text(),
    {
        match self {
            UpError::ContainerCreate(d) => prefixed("Failed to create container: ", d),
            UpError::ApplicationSpawn(d) => prefixed("Failed to spawn application: ", d),
            UpError::ImagePull(d) => prefixed("Failed while trying to pull docker image: ", d),
            UpError::ComposeError(d) => prefixed("Failed to run docker-compose: ", d),
        }
    }
}

impl DownError {
    /// The text shown for the failure.
    pub fn message(&self) -> (m: String)
        ensures
            m@ == self@.text(),
    {
        match self {
            DownError::ComposeError(d) => prefixed("Failed to stop docker-compose: ", d),
        }
    }
}

impl Error {
    /// The text shown for the failure.
    pub fn message(&self) -> (m: String)
        ensures
            m@ == self@.text(),
    {
        match self {
            Error::ConfigDoesNotExist(d) => prefixed("Config file does not exist: ", d),
            Error::InvalidConfig(d) => prefixed("Config is not valid: ", d),
            Error::UpError(e) => e.message(),
            Error::DockerError(d) => prefixed("Error trying to communicate with docker: ", d),
            Error::DownError(e) => e.message(),
            Error::NoDevContainer => String::from_str("No devcontainer project found"),
            Error::InvalidSettings(d) => prefixed("Error trying to parse settings: ", d),
            Error::ExecCommandError(d) => prefixed("Error trying to execute command: ", d),
            Error::YamlError(d) => d.clone(),
            Error::JSON5Error(d) => prefixed("Error trying to load settings: ", d),
            Error::IOError(d) => d.clone(),
            Error::Other(d) => prefixed("Unexpected error: ", d),
        }
    }
}

impl From<UpError> for Error {
    fn from(e: UpError) -> (r: Error) {
        Error::UpError(e)
    }
}

impl FromSpecImpl<UpError> for Error {
    open spec fn obeys_from_spec() -> bool {
        true
    }

    open spec fn from_spec(e: UpError) -> Error {
        Error::UpError(e)
    }
}

impl From<DownError> for Error {
    fn from(e: DownError) -> (r: Error) {
        Error::DownError(e)
    }
}

impl FromSpecImpl<DownError> for Error {
    open spec fn obeys_from_spec() -> bool {
        true
    }

    open spec fn from_spec(e: DownError) -> Error {
        Error::DownError(e)
    }
}

} // verus!
