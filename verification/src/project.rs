//! A project: a directory with a descriptor, the user's settings, and what
//! follows from the two for the container that is created.

use vstd::prelude::*;
use vstd::string::*;
use crate::container::{
    ContainerConfig, HostConfig, HostConfigView, PortBinding, PortBindingView, PortMap,
};
use crate::devcontainer::{AppPort, DevContainer};
use crate::errors::{Error, ErrorView};
use crate::mount_from_str::{mount_of, Mount, MountError, MountErrorView, MountExt, MountView};
use crate::paths::{join_path, joined, ProjectPath, ProjectPathView};
use crate::settings::{Settings, SettingsFile};
use crate::string_map::{
    distinct_keys, lemma_position_is, lemma_put, put, value_of, Entries, Pairs, StringMap, TextMap,
};
use crate::text::{
    concat, contains_char, copy_option, decimal, decimal_text, no_texts, push_text,
};

verus! {

/// The moments of a container's life at which a command is run in it.
#[derive(Clone, Copy, Debug, PartialEq, Eq, Structural)]
pub enum CommandHook {
    PostCreate,
    PostStart,
    PostAttach,
}

/// What one command of the launcher knows beyond the project: the port of
/// the application, once it is chosen, and the name of the project.
#[derive(Debug)]
pub struct Context {
    pub application_port: Option<u16>,
    pub project_name: String,
}

/// `Context` over texts.
pub struct ContextView {
    pub application_port: Option<u16>,
    pub project_name: Seq<char>,
}

impl View for Context {
    type V = ContextView;

    open spec fn view(&self) -> ContextView {
        ContextView { application_port: self.application_port, project_name: self.project_name@ }
    }
}

/// How a project is opened.
#[derive(Debug)]
pub struct ProjectOpts {
    /// The directory to start from, in place of the current one.
    pub path: Option<ProjectPath>,
    /// The name of the descriptor file, in place of `devcontainer.json`.
    pub filename: Option<String>,
    /// `Some(false)` leaves the user's settings aside.
    pub should_load_user_settings: Option<bool>,
    /// The address of the container runtime, in place of the local one.
    pub docker_host: Option<String>,
}

impl Default for ProjectOpts {
    fn default() -> (opts: ProjectOpts)
        ensures
            opts.path is None,
            opts.filename is None,
            opts.should_load_user_settings is None,
            opts.docker_host is None,
    {
        ProjectOpts { path: None, filename: None, should_load_user_settings: None, docker_host: None }
    }
}

/// A project.
#[derive(Debug)]
pub struct Project {
    /// The directory that holds the `.devcontainer` folder.
    pub path: ProjectPath,
    /// The name of the descriptor file inside that folder.
    pub filename: String,
    /// The address of the container runtime, where it is not the local one.
    pub docket_host: Option<String>,
    pub devcontainer: Option<DevContainer>,
    pub settings: Option<Settings>,
    pub opts: ProjectOpts,
}

/// The image reference with its tag: the reference itself where it holds a
/// colon, else the reference with `:latest`.
pub open spec fn formatted_image(image: Seq<char>) -> Seq<char> {
    if image.contains(':') {
        image
    } else {
        image + ":latest"@
    }
}

/// Every formatted image reference has a tag, so that formatting it again
/// changes nothing.
pub proof fn lemma_formatted_image_is_stable(image: Seq<char>)
    ensures
        formatted_image(image).contains(':'),
        formatted_image(formatted_image(image)) == formatted_image(image),
{
    if !image.contains(':') {
        reveal_strlit(":latest");
        let tagged = image + ":latest"@;
        assert(tagged[image.len() as int] == ':');
    }
}

/// The numerals of a list of ports.
pub open spec fn numerals(ports: Seq<i32>) -> Seq<Seq<char>> {
    Seq::new(ports.len(), |i: int| decimal(ports[i] as int))
}

/// The numerals of an optional list of ports.
pub open spec fn optional_numerals(ports: Option<Seq<i32>>) -> Seq<Seq<char>> {
    match ports {
        Some(list) => numerals(list),
        None => Seq::empty(),
    }
}

/// The ports that a descriptor's `appPort` names, each as text.
pub open spec fn app_port_texts(port: Option<AppPort>) -> Seq<Seq<char>> {
    match port {
        None => Seq::empty(),
        Some(AppPort::Port(p)) => seq![decimal(p as int)],
        Some(AppPort::Ports(list)) => Seq::new(list@.len(), |i: int| decimal(list@[i] as int)),
        Some(AppPort::PortStr(text)) => seq![text@],
    }
}

/// The name under which the runtime knows the port `port`: `PORT/tcp`.
pub open spec fn port_key(port: Seq<char>) -> Seq<char> {
    port + "/tcp"@
}

/// The binding of the port `port`: to the same port of the host, on all of
/// its addresses.
pub open spec fn binding_of(port: Seq<char>) -> PortBindingView {
    PortBindingView { host_ip: Some("0.0.0.0"@), host_port: Some(port) }
}

/// `bindings` with each port of `ports` bound, in order. A port that is
/// bound already keeps its place.
pub open spec fn bound(bindings: Pairs<PortBindingView>, ports: Seq<Seq<char>>) -> Pairs<
    PortBindingView,
>
    decreases ports.len(),
{
    if ports.len() == 0 {
        bindings
    } else {
        put(bound(bindings, ports.drop_last()), port_key(ports.last()), binding_of(ports.last()))
    }
}

/// The keys of a map, in order.
pub open spec fn keys_of<T>(map: Pairs<T>) -> Seq<Seq<char>> {
    Seq::new(map.len(), |i: int| map[i].0)
}

/// Binding ports keeps the keys distinct, and every port of `ports` is then
/// bound to its own number on the host.
pub proof fn lemma_bound(bindings: Pairs<PortBindingView>, ports: Seq<Seq<char>>)
    requires
        distinct_keys(bindings),
    ensures
        distinct_keys(bound(bindings, ports)),
        forall|i: int|
            0 <= i < ports.len() ==> value_of(
                bound(bindings, ports),
                #[trigger] port_key(ports[i]),
            ) == Some(binding_of(ports[i])),
    decreases ports.len(),
{
    if ports.len() > 0 {
        let before = ports.drop_last();
        let last = ports.last();
        lemma_bound(bindings, before);
        lemma_put(bound(bindings, before), port_key(last), binding_of(last));
        assert forall|i: int| 0 <= i < ports.len() implies value_of(
            bound(bindings, ports),
            #[trigger] port_key(ports[i]),
        ) == Some(binding_of(ports[i])) by {
            if port_key(ports[i]) == port_key(last) {
                let n = ports[i].len() as int;
                assert(port_key(ports[i]).subrange(0, n) =~= ports[i]);
                if last.len() == n {
                    assert(port_key(last).subrange(0, n) =~= last);
                } else {
                    assert(port_key(ports[i]).len() == n + "/tcp"@.len());
                    assert(port_key(last).len() == last.len() + "/tcp"@.len());
                }
                assert(ports[i] == last);
            } else {
                assert(before[i] == ports[i]);
            }
        }
    }
}

impl Project {
    /// Whether the project has a name for the descriptor `dc`: the
    /// descriptor gives one, or the project's directory has one.
    pub open spec fn nameable(&self, dc: &DevContainer) -> bool {
        dc.name is Some || self.path.file_name is Some
    }

    /// The folder that holds the descriptor: `.devcontainer` in the project's
    /// directory.
    pub open spec fn folder(&self) -> Seq<char> {
        joined(self.path.text@, ".devcontainer"@)
    }

    pub fn get_devcontainer_folder(&self) -> (folder: String)
        ensures
            folder@ == self.folder(),
    {
        join_path(self.path.text.as_str(), ".devcontainer")
    }

    /// The context of a command that has chosen no port yet.
    pub fn create_context(&self, devcontainer: &DevContainer) -> (ctx: Context)
        requires
            self.nameable(devcontainer),
        ensures
            ctx@ == (ContextView {
                application_port: None,
                project_name: devcontainer.project_name(&self.path),
            }),
    {
        Context { application_port: None, project_name: devcontainer.get_name(&self.path) }
    }

    /// The variables that tell the container and the application about the
    /// project: its name and, once chosen, the port of the application.
    pub open spec fn devcontainer_envs(&self, dc: &DevContainer, ctx: ContextView) -> Entries {
        let project = seq![("DEVCONTAINER_PROJECT"@, dc.project_name(&self.path))];
        match ctx.application_port {
            Some(port) => project.push(("DEVCONTAINER_APPLICATION_PORT"@, decimal(port as int))),
            None => project,
        }
    }

    pub fn get_devcontainer_envs(&self, devcontainer: &DevContainer, ctx: &Context) -> (envs:
        TextMap)
        requires
            self.nameable(devcontainer),
        ensures
            envs@ == self.devcontainer_envs(devcontainer, ctx@),
    {
        let mut envs: TextMap = StringMap::new();
        let name = devcontainer.get_name(&self.path);
        proof {
            lemma_position_is(envs@, "DEVCONTAINER_PROJECT"@, 0);
        }
        envs.insert(String::from_str("DEVCONTAINER_PROJECT"), name);
        assert(envs@ =~= seq![("DEVCONTAINER_PROJECT"@, devcontainer.project_name(&self.path))]);
        match ctx.application_port {
            Some(port) => {
                proof {
                    reveal_strlit("DEVCONTAINER_PROJECT");
                    reveal_strlit("DEVCONTAINER_APPLICATION_PORT");
                    assert("DEVCONTAINER_PROJECT"@.len() != "DEVCONTAINER_APPLICATION_PORT"@.len());
                    lemma_position_is(envs@, "DEVCONTAINER_APPLICATION_PORT"@, 1);
                }
                envs.insert(
                    String::from_str("DEVCONTAINER_APPLICATION_PORT"),
                    decimal_text(port as i64),
                );
            },
            None => {},
        }
        envs
    }

    pub fn docker_format_image(&self, image: String) -> (formatted: String)
        ensures
            formatted@ == formatted_image(image@),
    {
        if contains_char(image.as_str(), ':') {
            return image;
        }
        concat(image.as_str(), ":latest")
    }
}

fn numerals_of(ports: &Vec<i32>) -> (texts: Vec<String>)
    ensures
        texts.deep_view() == numerals(ports@),
{
    let mut texts = no_texts();
    let mut i: usize = 0;
    while i < ports.len()
        invariant
            i <= ports.len(),
            texts.deep_view() == numerals(ports@).take(i as int),
        decreases ports.len() - i,
    {
        let text = decimal_text(ports[i] as i64);
        assert(numerals(ports@).take(i + 1) =~= numerals(ports@).take(i as int).push(text@));
        push_text(&mut texts, text);
        i = i + 1;
    }
    assert(numerals(ports@).take(i as int) =~= numerals(ports@));
    texts
}

fn app_port_numerals(port: &Option<AppPort>) -> (texts: Vec<String>)
    ensures
        texts.deep_view() == app_port_texts(*port),
{
    let mut texts = no_texts();
    match port {
        None => {},
        Some(AppPort::Port(p)) => {
            push_text(&mut texts, decimal_text(*p as i64));
            assert(texts.deep_view() =~= app_port_texts(*port));
        },
        Some(AppPort::Ports(list)) => {
            let mut i: usize = 0;
            while i < list.len()
                invariant
                    i <= list.len(),
                    *port == Some(AppPort::Ports(*list)),
                    texts.deep_view() == app_port_texts(*port).take(i as int),
                decreases list.len() - i,
            {
                let text = decimal_text(list[i] as i64);
                assert(app_port_texts(*port).take(i + 1) =~= app_port_texts(*port).take(
                    i as int,
                ).push(text@));
                push_text(&mut texts, text);
                i = i + 1;
            }
            assert(app_port_texts(*port).take(i as int) =~= app_port_texts(*port));
        },
        Some(AppPort::PortStr(text)) => {
            push_text(&mut texts, text.clone());
            assert(texts.deep_view() =~= app_port_texts(*port));
        },
    }
    texts
}

fn publish(bindings: &mut PortMap, port: &String)
    ensures
        final(bindings)@ == put(old(bindings)@, port_key(port@), binding_of(port@)),
{
    let key = concat(port.as_str(), "/tcp");
    let binding = PortBinding {
        host_ip: Some(String::from_str("0.0.0.0")),
        host_port: Some(port.clone()),
    };
    bindings.insert(key, binding);
}

fn publish_all(bindings: &mut PortMap, ports: &Vec<String>)
    ensures
        final(bindings)@ == bound(old(bindings)@, ports.deep_view()),
{
    let mut i: usize = 0;
    assert(ports.deep_view().take(0) =~= Seq::<Seq<char>>::empty());
    while i < ports.len()
        invariant
            i <= ports.len(),
            bindings@ == bound(old(bindings)@, ports.deep_view().take(i as int)),
        decreases ports.len() - i,
    {
        proof {
            let next = ports.deep_view().take(i + 1);
            assert(next.drop_last() =~= ports.deep_view().take(i as int));
            assert(next.last() == ports[i as int]@);
        }
        publish(bindings, &ports[i]);
        i = i + 1;
    }
    assert(ports.deep_view().take(i as int) =~= ports.deep_view());
}

fn keys(map: &PortMap) -> (names: Vec<String>)
    ensures
        names.deep_view() == keys_of(map@),
{
    let mut names = no_texts();
    let mut i: usize = 0;
    let n = map.len();
    while i < n
        invariant
            n == map@.len(),
            i <= n,
            names.deep_view() == keys_of(map@).take(i as int),
        decreases n - i,
    {
        let name = map.key_at(i).clone();
        assert(keys_of(map@).take(i + 1) =~= keys_of(map@).take(i as int).push(name@));
        push_text(&mut names, name);
        i = i + 1;
    }
    assert(keys_of(map@).take(i as int) =~= keys_of(map@));
    names
}

/// The host's part of a configuration that has none yet.
pub open spec fn host_of(host: Option<HostConfigView>) -> HostConfigView {
    match host {
        Some(h) => h,
        None => HostConfigView { mounts: None, port_bindings: None },
    }
}

/// The bindings of a configuration that may have none yet.
pub open spec fn bindings_of(bindings: Option<Pairs<PortBindingView>>) -> Pairs<PortBindingView> {
    match bindings {
        Some(b) => b,
        None => Seq::empty(),
    }
}

impl Project {
    /// The ports that the container publishes, as texts and in order: the
    /// descriptor's application ports, its forwarded ports, the forwarded
    /// ports of the settings, and the port chosen for the application. A port
    /// may stand in it more than once.
    pub open spec fn requested_ports(&self, dc: &DevContainer, ctx: ContextView) -> Seq<Seq<char>> {
        app_port_texts(dc.app_port) + optional_numerals(dc.forward_ports.deep_view())
            + optional_numerals(self.settings->0.forward_ports.deep_view())
            + match ctx.application_port {
            Some(port) => seq![decimal(port as int)],
            None => Seq::empty(),
        }
    }

    fn requested(&self, dc: &DevContainer, ctx: &Context) -> (ports: Vec<String>)
        requires
            self.settings is Some,
        ensures
            ports.deep_view() == self.requested_ports(dc, ctx@),
    {
        let mut ports = app_port_numerals(&dc.app_port);
        match &dc.forward_ports {
            Some(list) => {
                let more = numerals_of(list);
                crate::text::append_texts(&mut ports, &more);
            },
            None => {
                assert(ports.deep_view() + Seq::<Seq<char>>::empty() =~= ports.deep_view());
            },
        }
        let ghost descriptor = ports.deep_view();
        match &self.settings {
            Some(settings) => match &settings.forward_ports {
                Some(list) => {
                    let more = numerals_of(list);
                    crate::text::append_texts(&mut ports, &more);
                },
                None => {
                    assert(ports.deep_view() + Seq::<Seq<char>>::empty() =~= ports.deep_view());
                },
            },
            None => {},
        }
        match ctx.application_port {
            Some(port) => {
                let ghost before = ports.deep_view();
                let text = decimal_text(port as i64);
                push_text(&mut ports, text);
                assert(before.push(text@) =~= before + seq![text@]);
            },
            None => {
                assert(ports.deep_view() + Seq::<Seq<char>>::empty() =~= ports.deep_view());
            },
        }
        ports
    }

    /// `config` with the requested ports published: each is exposed as
    /// `PORT/tcp` and bound to the same port on every address of the host.
    /// Bindings that `config` holds already stay; the list of exposed ports is
    /// made anew.
    pub open spec fn with_ports(
        &self,
        dc: &DevContainer,
        ctx: ContextView,
        config: crate::container::ContainerConfigView,
    ) -> crate::container::ContainerConfigView {
        let ports = self.requested_ports(dc, ctx);
        let host = host_of(config.host_config);
        crate::container::ContainerConfigView {
            exposed_ports: Some(keys_of(bound(Seq::empty(), ports))),
            host_config: Some(
                HostConfigView {
                    port_bindings: Some(bound(bindings_of(host.port_bindings), ports)),
                    ..host
                },
            ),
            ..config
        }
    }

    pub fn container_opts_build_ports(
        &self,
        devcontainer: &DevContainer,
        ctx: &Context,
        config: &mut ContainerConfig,
    ) -> (done: Result<(), Error>)
        requires
            self.settings is Some,
        ensures
            done is Ok,
            final(config)@ == self.with_ports(devcontainer, ctx@, old(config)@),
    {
        let ports = self.requested(devcontainer, ctx);
        let mut taken: Option<HostConfig> = None;
        core::mem::swap(&mut config.host_config, &mut taken);
        let host = match taken {
            Some(h) => h,
            None => HostConfig { mounts: None, port_bindings: None },
        };
        let HostConfig { mounts, port_bindings } = host;
        let mut bindings: PortMap = match port_bindings {
            Some(b) => b,
            None => StringMap::new(),
        };
        publish_all(&mut bindings, &ports);
        let mut fresh: PortMap = StringMap::new();
        publish_all(&mut fresh, &ports);
        config.exposed_ports = Some(keys(&fresh));
        config.host_config = Some(HostConfig { mounts, port_bindings: Some(bindings) });
        Ok(())
    }
}

/// The variables of `entries`, each as `NAME=value`.
pub open spec fn assignments(entries: Entries) -> Seq<Seq<char>> {
    Seq::new(entries.len(), |i: int| entries[i].0 + seq!['='] + entries[i].1)
}

fn push_assignments(list: &mut Vec<String>, entries: &TextMap)
    ensures
        final(list).deep_view() == old(list).deep_view() + assignments(entries@),
{
    let mut i: usize = 0;
    let n = entries.len();
    assert(list.deep_view() + assignments(entries@).take(0) =~= list.deep_view());
    while i < n
        invariant
            n == entries@.len(),
            i <= n,
            list.deep_view() == old(list).deep_view() + assignments(entries@).take(i as int),
        decreases n - i,
    {
        let mut line = concat(entries.key_at(i).as_str(), "=");
        line.append(entries.value_at(i).as_str());
        proof {
            reveal_strlit("=");
            assert("="@ =~= seq!['=']);
            assert(line@ == assignments(entries@)[i as int]);
            assert(assignments(entries@).take(i + 1) =~= assignments(entries@).take(
                i as int,
            ).push(line@));
            assert(old(list).deep_view() + assignments(entries@).take(i as int).push(line@) =~= (
            old(list).deep_view() + assignments(entries@).take(i as int)).push(line@));
        }
        push_text(list, line);
        i = i + 1;
    }
    assert(assignments(entries@).take(i as int) =~= assignments(entries@));
}

/// The command that keeps a container alive so that commands can be run in
/// it: a shell that sleeps for ever.
pub open spec fn idle_command() -> Seq<Seq<char>> {
    seq!["/bin/sh"@, "-c"@, "while sleep 1000; do :; done"@]
}

/// The assignments of an optional map.
pub open spec fn optional_assignments(map: Option<Entries>) -> Seq<Seq<char>> {
    match map {
        Some(entries) => assignments(entries),
        None => Seq::empty(),
    }
}

impl Project {
    /// The environment of the container: the variables that tell of the
    /// project, then those of the descriptor, then those of the settings. A
    /// name may stand in it more than once; nothing is taken out.
    pub open spec fn container_environment(&self, dc: &DevContainer, ctx: ContextView) -> Seq<
        Seq<char>,
    > {
        assignments(self.devcontainer_envs(dc, ctx)) + optional_assignments(
            dc.container_env.deep_view(),
        ) + optional_assignments(self.settings->0.envs.deep_view())
    }

    pub fn container_opts_build_envs(
        &self,
        devcontainer: &DevContainer,
        ctx: &Context,
        config: &mut ContainerConfig,
    ) -> (done: Result<(), Error>)
        requires
            self.settings is Some,
            self.nameable(devcontainer),
        ensures
            done is Ok,
            final(config)@ == (crate::container::ContainerConfigView {
                env: Some(self.container_environment(devcontainer, ctx@)),
                ..old(config)@
            }),
    {
        let mut envs = no_texts();
        let own = self.get_devcontainer_envs(devcontainer, ctx);
        push_assignments(&mut envs, &own);
        assert(Seq::<Seq<char>>::empty() + assignments(own@) =~= assignments(own@));
        match &devcontainer.container_env {
            Some(map) => {
                push_assignments(&mut envs, map);
            },
            None => {
                assert(envs.deep_view() + Seq::<Seq<char>>::empty() =~= envs.deep_view());
            },
        }
        match &self.settings {
            Some(settings) => match &settings.envs {
                Some(map) => {
                    push_assignments(&mut envs, map);
                },
                None => {
                    assert(envs.deep_view() + Seq::<Seq<char>>::empty() =~= envs.deep_view());
                },
            },
            None => {},
        }
        config.env = Some(envs);
        Ok(())
    }

    /// `config` with its command set to the idle command where the
    /// descriptor asks for the command to be overridden, and as it was where
    /// it does not.
    pub fn container_opts_build_cmd(
        &self,
        devcontainer: &DevContainer,
        config: &mut ContainerConfig,
    ) -> (done: Result<(), Error>)
        ensures
            done is Ok,
            final(config)@ == if devcontainer.override_command {
                crate::container::ContainerConfigView {
                    cmd: Some(idle_command()),
                    ..old(config)@
                }
            } else {
                old(config)@
            },
    {
        if devcontainer.override_command {
            let mut cmd = no_texts();
            push_text(&mut cmd, String::from_str("/bin/sh"));
            push_text(&mut cmd, String::from_str("-c"));
            push_text(&mut cmd, String::from_str("while sleep 1000; do :; done"));
            assert(cmd.deep_view() =~= idle_command());
            config.cmd = Some(cmd);
        }
        Ok(())
    }
}

/// The mount of the workspace where the descriptor names none: the
/// project's directory, bound to `/workspace`, with cached consistency.
pub open spec fn default_workspace_mount(path: Seq<char>) -> Seq<char> {
    "source="@ + path + ",target=/workspace,type=bind,consistency=cached"@
}

/// The mounts that the texts of `texts` stand for, in order, or the reason
/// for which the first text that is no mount is refused.
pub open spec fn mounts_of(texts: Seq<Seq<char>>) -> Result<Seq<MountView>, MountErrorView>
    decreases texts.len(),
{
    if texts.len() == 0 {
        Ok(Seq::empty())
    } else {
        match mounts_of(texts.drop_last()) {
            Err(e) => Err(e),
            Ok(before) => match mount_of(texts.last()) {
                Ok(m) => Ok(before.push(m)),
                Err(e) => Err(e),
            },
        }
    }
}

/// The texts of an optional list.
pub open spec fn optional_texts(list: Option<Seq<Seq<char>>>) -> Seq<Seq<char>> {
    match list {
        Some(texts) => texts,
        None => Seq::empty(),
    }
}

fn read_mounts(list: &mut Vec<Mount>, texts: &Vec<String>) -> (read: Result<(), MountError>)
    ensures
        match mounts_of(texts.deep_view()) {
            Ok(mounts) => read is Ok && final(list).deep_view() == old(list).deep_view() + mounts,
            Err(e) => read is Err && read->Err_0@ == e,
        },
{
    let mut i: usize = 0;
    assert(texts.deep_view().take(0) =~= Seq::<Seq<char>>::empty());
    assert(list.deep_view() + Seq::<MountView>::empty() =~= list.deep_view());
    while i < texts.len()
        invariant
            i <= texts.len(),
            mounts_of(texts.deep_view().take(i as int)) is Ok,
            list.deep_view() == old(list).deep_view() + mounts_of(
                texts.deep_view().take(i as int),
            )->Ok_0,
        decreases texts.len() - i,
    {
        let ghost done = texts.deep_view().take(i as int);
        let ghost next = texts.deep_view().take(i + 1);
        proof {
            assert(next.drop_last() =~= done);
            assert(next.last() == texts[i as int]@);
        }
        match Mount::parse_from_str(texts[i].as_str()) {
            Ok(m) => {
                let ghost before = list.deep_view();
                list.push(m);
                proof {
                    assert(list.deep_view() =~= before.push(m@));
                    assert(old(list).deep_view() + mounts_of(done)->Ok_0.push(m@) =~= (old(
                        list,
                    ).deep_view() + mounts_of(done)->Ok_0).push(m@));
                }
            },
            Err(e) => {
                proof {
                    lemma_mounts_of_refused(texts.deep_view(), i as int + 1);
                }
                return Err(e);
            },
        }
        i = i + 1;
    }
    assert(texts.deep_view().take(i as int) =~= texts.deep_view());
    Ok(())
}

/// Once the first `n` texts are refused, the whole list is refused for the
/// same reason.
pub proof fn lemma_mounts_of_refused(texts: Seq<Seq<char>>, n: int)
    requires
        0 <= n <= texts.len(),
        mounts_of(texts.take(n)) is Err,
    ensures
        mounts_of(texts) == mounts_of(texts.take(n)),
    decreases texts.len() - n,
{
    if n == texts.len() {
        assert(texts.take(n) =~= texts);
    } else {
        assert(texts.take(n + 1).drop_last() =~= texts.take(n));
        lemma_mounts_of_refused(texts, n + 1);
    }
}

impl Project {
    /// The text of the workspace's mount: what the descriptor gives, or
    /// the default.
    pub open spec fn workspace_mount_text(&self, dc: &DevContainer) -> Seq<char> {
        match dc.workspace_mount {
            Some(text) => text@,
            None => default_workspace_mount(self.path.text@),
        }
    }

    /// The mounts of the container: first that of the workspace, then
    /// those of the descriptor, then those of the settings. A text of the
    /// descriptor that is no mount is an `InvalidConfig`, one of the settings
    /// an `InvalidSettings`; the texts are read in that order.
    pub open spec fn container_mounts(&self, dc: &DevContainer) -> Result<
        Seq<MountView>,
        ErrorView,
    > {
        let own = seq![self.workspace_mount_text(dc)] + optional_texts(dc.mounts.deep_view());
        match mounts_of(own) {
            Err(e) => Err(ErrorView::InvalidConfig(e.text())),
            Ok(first) => match mounts_of(optional_texts(self.settings->0.mounts.deep_view())) {
                Err(e) => Err(ErrorView::InvalidSettings(e.text())),
                Ok(second) => Ok(first + second),
            },
        }
    }

    fn own_mount_texts(&self, dc: &DevContainer) -> (texts: Vec<String>)
        ensures
            texts.deep_view() == seq![self.workspace_mount_text(dc)] + optional_texts(
                dc.mounts.deep_view(),
            ),
    {
        let mut texts = no_texts();
        let workspace = match &dc.workspace_mount {
            Some(text) => text.clone(),
            None => {
                let mut text = concat("source=", self.path.text.as_str());
                text.append(",target=/workspace,type=bind,consistency=cached");
                text
            },
        };
        push_text(&mut texts, workspace);
        assert(texts.deep_view() =~= seq![self.workspace_mount_text(dc)]);
        match &dc.mounts {
            Some(list) => {
                crate::text::append_texts(&mut texts, list);
            },
            None => {
                assert(texts.deep_view() + Seq::<Seq<char>>::empty() =~= texts.deep_view());
            },
        }
        texts
    }

    fn read_container_mounts(&self, dc: &DevContainer) -> (read: Result<Vec<Mount>, Error>)
        requires
            self.settings is Some,
        ensures
            match self.container_mounts(dc) {
                Ok(mounts) => read is Ok && read->Ok_0.deep_view() == mounts,
                Err(e) => read is Err && read->Err_0@ == e,
            },
    {
        let mut mounts: Vec<Mount> = Vec::new();
        assert(mounts.deep_view() =~= Seq::<MountView>::empty());
        let own = self.own_mount_texts(dc);
        match read_mounts(&mut mounts, &own) {
            Ok(()) => {},
            Err(e) => {
                return Err(Error::InvalidConfig(e.message()));
            },
        }
        let ghost first = mounts.deep_view();
        assert(first =~= mounts_of(own.deep_view())->Ok_0);
        match &self.settings {
            Some(settings) => match &settings.mounts {
                Some(list) => match read_mounts(&mut mounts, list) {
                    Ok(()) => {},
                    Err(e) => {
                        return Err(Error::InvalidSettings(e.message()));
                    },
                },
                None => {
                    assert(mounts.deep_view() + Seq::<MountView>::empty() =~= mounts.deep_view());
                },
            },
            None => {},
        }
        Ok(mounts)
    }

    /// `config` with the mounts of the container added behind those it
    /// holds; the rest of it stays.
    pub open spec fn with_mounts(
        config: crate::container::ContainerConfigView,
        mounts: Seq<MountView>,
    ) -> crate::container::ContainerConfigView {
        let host = host_of(config.host_config);
        let existing = match host.mounts {
            Some(m) => m,
            None => Seq::empty(),
        };
        crate::container::ContainerConfigView {
            host_config: Some(HostConfigView { mounts: Some(existing + mounts), ..host }),
            ..config
        }
    }

    /// Adds the mounts of the container to `config`. Where a text is no
    /// mount, `config` stays as it was.
    pub fn container_opts_build_mounts(
        &self,
        devcontainer: &DevContainer,
        config: &mut ContainerConfig,
    ) -> (done: Result<(), Error>)
        requires
            self.settings is Some,
        ensures
            match self.container_mounts(devcontainer) {
                Ok(mounts) => done is Ok && final(config)@ == Self::with_mounts(
                    old(config)@,
                    mounts,
                ),
                Err(e) => done is Err && done->Err_0@ == e && final(config)@ == old(config)@,
            },
    {
        let mut added = match self.read_container_mounts(devcontainer) {
            Ok(mounts) => mounts,
            Err(e) => {
                return Err(e);
            },
        };
        let mut taken: Option<HostConfig> = None;
        core::mem::swap(&mut config.host_config, &mut taken);
        let host = match taken {
            Some(h) => h,
            None => HostConfig { mounts: None, port_bindings: None },
        };
        let HostConfig { mounts, port_bindings } = host;
        let mut all: Vec<Mount> = match mounts {
            Some(m) => m,
            None => Vec::new(),
        };
        let ghost existing = all.deep_view();
        let ghost more = added.deep_view();
        all.append(&mut added);
        assert(all.deep_view() =~= existing + more);
        assert(existing =~= match host_of(old(config)@.host_config).mounts {
            Some(m) => m,
            None => Seq::empty(),
        });
        config.host_config = Some(HostConfig { mounts: Some(all), port_bindings });
        Ok(())
    }
}

/// What was found at one directory on the way from the starting directory
/// up to the root.
#[derive(Debug)]
pub struct AncestorProbe {
    /// Whether the directory holds a `.devcontainer` folder.
    pub has_devcontainer: bool,
    /// The directory in canonical form, or why it has none.
    pub canonical: Result<ProjectPath, String>,
}

/// What the file system told about the place a project is opened at.
#[derive(Debug)]
pub struct PathProbe {
    /// The current directory.
    pub current_dir: ProjectPath,
    /// Whether the directory asked for exists; the reason where it does not.
    pub requested: Result<(), String>,
    /// The starting directory and then each of its parents, up to the root.
    pub ancestors: Vec<AncestorProbe>,
}

/// What was found where the descriptor is kept.
#[derive(Debug)]
pub enum DescriptorFile {
    /// There is no descriptor file.
    Missing,
    /// The file is there and could not be read.
    Unreadable(String),
    /// The file was read and is no descriptor.
    Malformed(String),
    /// The descriptor that the file holds.
    Parsed(DevContainer),
}

/// The directory of the project: the last of `ancestors` that holds a
/// `.devcontainer` folder, in canonical form, and `start` where none does.
/// The first such directory without a canonical form ends the search.
pub open spec fn chosen_path(start: ProjectPathView, ancestors: Seq<AncestorProbe>) -> Result<
    ProjectPathView,
    Seq<char>,
>
    decreases ancestors.len(),
{
    if ancestors.len() == 0 {
        Ok(start)
    } else {
        match chosen_path(start, ancestors.drop_last()) {
            Err(e) => Err(e),
            Ok(path) => if !ancestors.last().has_devcontainer {
                Ok(path)
            } else {
                match ancestors.last().canonical {
                    Ok(found) => Ok(found@),
                    Err(e) => Err(e@),
                }
            },
        }
    }
}

/// Once the first `n` directories end the search, so does the whole list.
pub proof fn lemma_chosen_path_refused(
    start: ProjectPathView,
    ancestors: Seq<AncestorProbe>,
    n: int,
)
    requires
        0 <= n <= ancestors.len(),
        chosen_path(start, ancestors.take(n)) is Err,
    ensures
        chosen_path(start, ancestors) == chosen_path(start, ancestors.take(n)),
    decreases ancestors.len() - n,
{
    if n == ancestors.len() {
        assert(ancestors.take(n) =~= ancestors);
    } else {
        assert(ancestors.take(n + 1).drop_last() =~= ancestors.take(n));
        lemma_chosen_path_refused(start, ancestors, n + 1);
    }
}

impl Project {
    /// The directory from which the search for the project starts.
    pub open spec fn starting_path(opts: &ProjectOpts, probe: &PathProbe) -> ProjectPathView {
        match opts.path {
            Some(path) => path@,
            None => probe.current_dir@,
        }
    }

    /// The outcome of opening a project: the directory of the project, or
    /// the reason for which there is none.
    pub open spec fn opened_path(opts: &ProjectOpts, probe: &PathProbe) -> Result<
        ProjectPathView,
        Seq<char>,
    > {
        if opts.path is Some && probe.requested is Err {
            Err(probe.requested->Err_0@)
        } else {
            chosen_path(Self::starting_path(opts, probe), probe.ancestors@)
        }
    }

    /// Opens the project at the directory that `opts` asks for, or at the
    /// current one. The descriptor and the settings are not loaded yet.
    pub fn new(opts: ProjectOpts, probe: PathProbe) -> (opened: Result<Project, Error>)
        ensures
            match Self::opened_path(&opts, &probe) {
                Err(e) => opened is Err && opened->Err_0@ == ErrorView::InvalidConfig(e),
                Ok(path) => {
                    &&& opened is Ok
                    &&& opened->Ok_0.path@ == path
                    &&& opened->Ok_0.filename@ == match opts.filename {
                        Some(name) => name@,
                        None => "devcontainer.json"@,
                    }
                    &&& opened->Ok_0.docket_host.deep_view() == opts.docker_host.deep_view()
                    &&& opened->Ok_0.devcontainer is None
                    &&& opened->Ok_0.settings is None
                    &&& opened->Ok_0.opts == opts
                },
            },
    {
        let PathProbe { current_dir, requested, ancestors } = probe;
        let mut path = match &opts.path {
            Some(asked) => {
                match requested {
                    Ok(()) => {},
                    Err(e) => {
                        return Err(Error::InvalidConfig(e));
                    },
                }
                asked.clone()
            },
            None => current_dir,
        };
        let mut i: usize = 0;
        let ghost start = path@;
        assert(ancestors@.take(0) =~= Seq::<AncestorProbe>::empty());
        while i < ancestors.len()
            invariant
                i <= ancestors.len(),
                ancestors == probe.ancestors,
                start == Self::starting_path(&opts, &probe),
                !(opts.path is Some && probe.requested is Err),
                chosen_path(start, ancestors@.take(i as int)) == Ok::<ProjectPathView, Seq<char>>(
                    path@,
                ),
            decreases ancestors.len() - i,
        {
            proof {
                assert(ancestors@.take(i + 1).drop_last() =~= ancestors@.take(i as int));
                assert(ancestors@.take(i + 1).last() == ancestors@[i as int]);
            }
            if ancestors[i].has_devcontainer {
                match &ancestors[i].canonical {
                    Ok(found) => {
                        path = found.clone();
                    },
                    Err(e) => {
                        proof {
                            lemma_chosen_path_refused(start, ancestors@, i + 1);
                        }
                        return Err(Error::InvalidConfig(e.clone()));
                    },
                }
            }
            i = i + 1;
        }
        assert(ancestors@.take(i as int) =~= ancestors@);
        let filename = match &opts.filename {
            Some(name) => name.clone(),
            None => String::from_str("devcontainer.json"),
        };
        let docket_host = copy_option(&opts.docker_host);
        Ok(Project { path, filename, docket_host, devcontainer: None, settings: None, opts })
    }

    /// Whether the user's settings are loaded: they are, unless the project
    /// was opened with `should_load_user_settings` set to `Some(false)`.
    pub open spec fn wants_user_settings(&self) -> bool {
        self.opts.should_load_user_settings != Some(false)
    }

    pub fn loads_user_settings(&self) -> (yes: bool)
        ensures
            yes == self.wants_user_settings(),
    {
        match self.opts.should_load_user_settings {
            Some(false) => false,
            _ => true,
        }
    }

    /// The path of the descriptor file.
    pub open spec fn descriptor_path(&self) -> Seq<char> {
        joined(self.folder(), self.filename@)
    }

    pub fn get_descriptor_path(&self) -> (path: String)
        ensures
            path@ == self.descriptor_path(),
    {
        let folder = self.get_devcontainer_folder();
        join_path(folder.as_str(), self.filename.as_str())
    }

    /// The settings that a load leaves in the project: the empty ones where
    /// the user's settings are left aside, else what `file` gives.
    pub open spec fn settings_to_load(&self, file: SettingsFile) -> Result<Settings, ErrorView> {
        if self.wants_user_settings() {
            Settings::loaded(file)
        } else {
            Ok(Settings::empty())
        }
    }

    /// The descriptor that a load leaves in the project, or why it leaves
    /// none: the file is missing, cannot be read, is no descriptor, or holds a
    /// descriptor that breaks a rule.
    pub open spec fn descriptor_to_load(&self, file: DescriptorFile) -> Result<
        DevContainer,
        ErrorView,
    > {
        match file {
            DescriptorFile::Missing => Err(ErrorView::ConfigDoesNotExist(self.descriptor_path())),
            DescriptorFile::Unreadable(why) => Err(ErrorView::InvalidConfig(why@)),
            DescriptorFile::Malformed(why) => Err(ErrorView::InvalidConfig(why@)),
            DescriptorFile::Parsed(dc) => match dc.violation() {
                Some(rule) => Err(ErrorView::InvalidConfig(rule)),
                None => Ok(dc),
            },
        }
    }

    /// Takes the settings and the descriptor into the project. The settings
    /// come first: where they fail, nothing changes. The descriptor is taken
    /// only where it is valid.
    pub fn load(&mut self, settings: SettingsFile, descriptor: DescriptorFile) -> (done: Result<
        (),
        Error,
    >)
        ensures
            final(self).path == old(self).path,
            final(self).filename == old(self).filename,
            final(self).docket_host == old(self).docket_host,
            final(self).opts == old(self).opts,
            match old(self).settings_to_load(settings) {
                Err(e) => {
                    &&& done is Err
                    &&& done->Err_0@ == e
                    &&& final(self).settings == old(self).settings
                    &&& final(self).devcontainer == old(self).devcontainer
                },
                Ok(loaded) => {
                    &&& final(self).settings == Some(loaded)
                    &&& match old(self).descriptor_to_load(descriptor) {
                        Err(e) => {
                            &&& done is Err
                            &&& done->Err_0@ == e
                            &&& final(self).devcontainer == old(self).devcontainer
                        },
                        Ok(dc) => {
                            &&& done is Ok
                            &&& final(self).devcontainer == Some(dc)
                            &&& dc.valid()
                        },
                    }
                },
            },
    {
        let loaded = if self.loads_user_settings() {
            match Settings::load(settings) {
                Ok(s) => s,
                Err(e) => {
                    return Err(e);
                },
            }
        } else {
            Settings::default()
        };
        self.settings = Some(loaded);
        match descriptor {
            DescriptorFile::Missing => Err(Error::ConfigDoesNotExist(self.get_descriptor_path())),
            DescriptorFile::Unreadable(why) => Err(Error::InvalidConfig(why)),
            DescriptorFile::Malformed(why) => Err(Error::InvalidConfig(why)),
            DescriptorFile::Parsed(dc) => {
                match dc.validate() {
                    Ok(()) => {},
                    Err(e) => {
                        return Err(e);
                    },
                }
                self.devcontainer = Some(dc);
                Ok(())
            },
        }
    }
}

} // verus!
