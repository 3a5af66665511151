//! What the launcher asks of the container runtime and what it reads back:
//! the configuration of a container to create, and the summary of one found.

use vstd::prelude::*;
use vstd::string::*;
use crate::mount_from_str::{Mount, MountView};
use crate::string_map::{Entries, Pairs, StringMap, TextMap};

verus! {

/// Where on the host a port of the container is published.
#[derive(Debug)]
pub struct PortBinding {
    pub host_ip: Option<String>,
    pub host_port: Option<String>,
}

/// `PortBinding` over texts.
pub struct PortBindingView {
    pub host_ip: Option<Seq<char>>,
    pub host_port: Option<Seq<char>>,
}

impl View for PortBinding {
    type V = PortBindingView;

    open spec fn view(&self) -> PortBindingView {
        PortBindingView {
            host_ip: self.host_ip.deep_view(),
            host_port: self.host_port.deep_view(),
        }
    }
}

impl DeepView for PortBinding {
    type V = PortBindingView;

    open spec fn deep_view(&self) -> PortBindingView {
        self@
    }
}

/// The bindings of a container's ports, by port: `8080/tcp` and the like.
pub type PortMap = StringMap<PortBinding>;

/// The part of a container's configuration that concerns the host.
#[derive(Debug)]
pub struct HostConfig {
    pub mounts: Option<Vec<Mount>>,
    pub port_bindings: Option<PortMap>,
}

/// `HostConfig` over texts.
pub struct HostConfigView {
    pub mounts: Option<Seq<MountView>>,
    pub port_bindings: Option<Pairs<PortBindingView>>,
}

impl View for HostConfig {
    type V = HostConfigView;

    open spec fn view(&self) -> HostConfigView {
        HostConfigView {
            mounts: self.mounts.deep_view(),
            port_bindings: self.port_bindings.deep_view(),
        }
    }
}

impl DeepView for HostConfig {
    type V = HostConfigView;

    open spec fn deep_view(&self) -> HostConfigView {
        self@
    }
}

/// The configuration from which a container is created.
#[derive(Debug)]
pub struct ContainerConfig {
    pub image: Option<String>,
    /// The environment, each variable as `NAME=value`.
    pub env: Option<Vec<String>>,
    /// The command that the container runs in place of the image's own.
    pub cmd: Option<Vec<String>>,
    pub labels: Option<TextMap>,
    /// The ports that the container exposes, each once.
    pub exposed_ports: Option<Vec<String>>,
    pub host_config: Option<HostConfig>,
}

/// `ContainerConfig` over texts.
pub struct ContainerConfigView {
    pub image: Option<Seq<char>>,
    pub env: Option<Seq<Seq<char>>>,
    pub cmd: Option<Seq<Seq<char>>>,
    pub labels: Option<Entries>,
    pub exposed_ports: Option<Seq<Seq<char>>>,
    pub host_config: Option<HostConfigView>,
}

impl View for ContainerConfig {
    type V = ContainerConfigView;

    open spec fn view(&self) -> ContainerConfigView {
        ContainerConfigView {
            image: self.image.deep_view(),
            env: self.env.deep_view(),
            cmd: self.cmd.deep_view(),
            labels: self.labels.deep_view(),
            exposed_ports: self.exposed_ports.deep_view(),
            host_config: self.host_config.deep_view(),
        }
    }
}

impl DeepView for ContainerConfig {
    type V = ContainerConfigView;

    open spec fn deep_view(&self) -> ContainerConfigView {
        self@
    }
}

impl ContainerConfig {
    /// The configuration of a container of `image`, with nothing else set.
    pub fn for_image(image: String) -> (config: ContainerConfig)
        ensures
            config@ == (ContainerConfigView {
                image: Some(image@),
                env: None,
                cmd: None,
                labels: None,
                exposed_ports: None,
                host_config: None,
            }),
    {
        ContainerConfig {
            image: Some(image),
            env: None,
            cmd: None,
            labels: None,
            exposed_ports: None,
            host_config: None,
        }
    }
}

/// What the runtime tells of a container it was asked for.
#[derive(Debug)]
pub struct ContainerStat {
    pub id: String,
    /// The state of the container: `running`, `exited` and so on.
    pub state: Option<String>,
    pub labels: Option<TextMap>,
}

/// `ContainerStat` over texts.
pub struct ContainerStatView {
    pub id: Seq<char>,
    pub state: Option<Seq<char>>,
    pub labels: Option<Entries>,
}

impl View for ContainerStat {
    type V = ContainerStatView;

    open spec fn view(&self) -> ContainerStatView {
        ContainerStatView {
            id: self.id@,
            state: self.state.deep_view(),
            labels: self.labels.deep_view(),
        }
    }
}

impl DeepView for ContainerStat {
    type V = ContainerStatView;

    open spec fn deep_view(&self) -> ContainerStatView {
        self@
    }
}

impl ContainerStatView {
    /// Whether the container is running.
    pub open spec fn running(self) -> bool {
        self.state == Some("running"@)
    }
}

impl ContainerStat {
    /// Whether the container is running.
    pub fn is_running(&self) -> (yes: bool)
        ensures
            yes == self@.running(),
    {
        match &self.state {
            Some(state) => crate::text::same_text(state.as_str(), "running"),
            None => false,
        }
    }
}

} // verus!
