//! What a project asks of the container runtime, piece by piece: how its
//! container is recognised, named and configured, which image it is made
//! from, which commands run in it, and how its compose stack is called.

use vstd::prelude::*;
use vstd::string::*;
use crate::container::{ContainerConfig, ContainerConfigView, ContainerStat, HostConfigView};
use crate::devcontainer::{CommandLineVec, DevContainer, DockerComposeFile};
use crate::errors::{Error, ErrorView, UpError, UpErrorView};
use crate::paths::{join_path, joined};
use crate::project::{
    bound, idle_command, keys_of, CommandHook, Context, ContextView, Project,
};
use crate::settings::{ComposeOverride, ComposeOverrideView, Settings};
use crate::string_map::{lemma_position_is, overlay, Entries, StringMap, TextMap};
use crate::text::{
    append_texts, chars_of, concat, decimal, decimal_text, find_char, first_index_of, no_texts,
    number_error_text, parse_port, port_number, push_text, starts_with,
};

verus! {

/// The label filters by which the container of the project `name` is found:
/// it is a development container, and it is the one of that project.
pub open spec fn identity_filters(name: Seq<char>) -> Seq<Seq<char>> {
    seq!["devcontainer=true"@, "devcontainer_name="@ + name]
}

/// The label filters by which the container of a compose service is found.
pub open spec fn compose_filters(project: Seq<char>, service: Seq<char>) -> Seq<Seq<char>> {
    seq!["com.docker.compose.project="@ + project, "com.docker.compose.service="@ + service]
}

/// The labels that a container of the project `name` is created with.
pub open spec fn identity_labels(name: Seq<char>) -> Entries {
    seq![("devcontainer"@, "true"@), ("devcontainer_name"@, name)]
}

/// The part of an image reference before its first colon.
pub open spec fn image_base(image: Seq<char>) -> Seq<char> {
    image.take(first_index_of(image, ':') as int)
}

/// The `n`th name tried for a new container.
pub open spec fn candidate_name(dir: Seq<char>, image: Seq<char>, n: int) -> Seq<char> {
    dir + "_devcontainer_"@ + image_base(image) + "_"@ + decimal(n)
}

/// How many names are tried for a new container: the names 1 to 20, in
/// that order. Where all of them are taken, the container gets no name from
/// the launcher, and the runtime picks one.
pub const NAME_ATTEMPTS: u32 = 20;

/// The prefix of the label that keeps the port of the application.
pub open spec fn port_label_prefix() -> Seq<char> {
    "devcontainer_application_port="@
}

/// Where the first label that keeps the port of the application stands;
/// the number of labels where none does.
pub open spec fn port_label_position(labels: Entries) -> nat
    decreases labels.len(),
{
    if labels.len() == 0 || port_label_prefix().is_prefix_of(labels[0].0) {
        0
    } else {
        1 + port_label_position(labels.skip(1))
    }
}

/// The port that the labels of a container keep for the application:
/// `None` where no label keeps one, and a failure where the first label
/// that does holds no port.
pub open spec fn labelled_port(labels: Option<Entries>) -> Result<Option<u16>, ErrorView> {
    match labels {
        None => Ok(None),
        Some(entries) => {
            let at = port_label_position(entries);
            if at >= entries.len() {
                Ok(None)
            } else {
                match port_number(entries[at as int].0.skip(port_label_prefix().len() as int)) {
                    Ok(port) => Ok(Some(port)),
                    Err(why) => Err(
                        ErrorView::Other(
                            "Could not parse application port from container: "@
                                + number_error_text(why),
                        ),
                    ),
                }
            }
        },
    }
}

proof fn lemma_port_label_position(labels: Entries, at: int)
    requires
        0 <= at <= labels.len(),
        forall|j: int| 0 <= j < at ==> !port_label_prefix().is_prefix_of((#[trigger] labels[j]).0),
        at == labels.len() || port_label_prefix().is_prefix_of(labels[at].0),
    ensures
        port_label_position(labels) == at,
    decreases labels.len(),
{
    if at > 0 {
        let rest = labels.skip(1);
        assert forall|j: int| 0 <= j < at - 1 implies !port_label_prefix().is_prefix_of(
            (#[trigger] rest[j]).0,
        ) by {
            assert(rest[j] == labels[j + 1]);
        }
        lemma_port_label_position(rest, at - 1);
    }
}

/// What the failure of a command run in the container says: its exit code.
pub open spec fn exit_code_text(code: int) -> Seq<char> {
    "Exit code: "@ + decimal(code)
}

/// The outcome of a command run in the container, by its exit code: a
/// failure for a code other than 0, and success where the code is 0 or the
/// runtime knows none.
pub open spec fn exec_outcome(exit_code: Option<i64>) -> Result<(), ErrorView> {
    match exit_code {
        Some(code) => if code != 0 {
            Err(ErrorView::ExecCommandError(exit_code_text(code as int)))
        } else {
            Ok(())
        },
        None => Ok(()),
    }
}

/// What a process that ended tells by its exit code: it has done its work
/// where the code is 0, and has failed where the code is another one or where
/// it left none, as a process does that a signal ended.
pub open spec fn process_outcome(code: Option<i32>) -> Result<(), Seq<char>> {
    match code {
        Some(c) => if c == 0 {
            Ok(())
        } else {
            Err("exit status: "@ + decimal(c as int))
        },
        None => Err("terminated by a signal"@),
    }
}

/// The hexadecimal SHA-1 digest of the bytes of a text.
pub uninterp spec fn sha1_hex(text: Seq<char>) -> Seq<char>;

/// The tag of the image built from a Dockerfile with the digest `hex`:
/// `devcontainer_` and the first ten characters of the digest.
pub open spec fn tag_from_digest(hex: Seq<char>) -> Seq<char> {
    "devcontainer_"@ + hex.take(10)
}

/// Feeds `text` to a fresh `crypto::sha1::Sha1` with `Digest::input_str` and
/// reads the digest with `Digest::result_str`. The claim is that the result
/// depends on the text alone and has forty characters: `result_str` writes
/// the twenty bytes of the digest as two hexadecimal digits each.
#[verifier::external_body]
fn sha1_hex_digest(text: &str) -> (hex: String)
    ensures
        hex@ == sha1_hex(text@),
        hex@.len() == 40,
{
    let mut hasher = crypto::sha1::Sha1::new();
    crypto::digest::Digest::input_str(&mut hasher, text);
    crypto::digest::Digest::result_str(&mut hasher)
}

/// The tag of the image built from a Dockerfile with the digest `hex`.
pub fn image_tag_from_digest(hex: &str) -> (tag: String)
    requires
        hex@.len() >= 10,
    ensures
        tag@ == tag_from_digest(hex@),
{
    let head = hex.substring_char(0, 10);
    concat("devcontainer_", head)
}

/// The tag of the image built from the Dockerfile `contents`. The same
/// Dockerfile gives the same tag, so that its image is built once. The
/// digest has forty characters, and the tag twenty-three: the thirteen of
/// `devcontainer_` and the first ten of the digest.
pub fn docker_build_image_tag(contents: &str) -> (tag: String)
    ensures
        tag@ == tag_from_digest(sha1_hex(contents@)),
        sha1_hex(contents@).len() == 40,
        tag@.len() == 23,
{
    let hex = sha1_hex_digest(contents);
    proof {
        reveal_strlit("devcontainer_");
        assert("devcontainer_"@.len() == 13);
        assert(hex@.take(10).len() == 10);
    }
    image_tag_from_digest(hex.as_str())
}

/// The first container of those that the runtime found, if it found any.
/// Where it found several, the order in which it gave them decides.
pub fn get_container_from_filters(found: Vec<ContainerStat>) -> (first: Option<ContainerStat>)
    ensures
        first == if found@.len() > 0 {
            Some(found@[0])
        } else {
            None
        },
{
    let mut found = found;
    if found.len() > 0 {
        Some(found.swap_remove(0))
    } else {
        None
    }
}

/// What a process that ended came to, by its exit code.
pub fn check_process_exit(code: Option<i32>) -> (outcome: Result<(), String>)
    ensures
        match process_outcome(code) {
            Ok(()) => outcome is Ok,
            Err(why) => outcome is Err && outcome->Err_0@ == why,
        },
{
    match code {
        Some(c) => {
            if c != 0 {
                let number = decimal_text(c as i64);
                return Err(concat("exit status: ", number.as_str()));
            }
            Ok(())
        },
        None => Err(String::from_str("terminated by a signal")),
    }
}

/// What a command run in the container came to, by its exit code.
pub fn check_exit_code(exit_code: Option<i64>) -> (outcome: Result<(), Error>)
    ensures
        match exec_outcome(exit_code) {
            Ok(()) => outcome is Ok,
            Err(e) => outcome is Err && outcome->Err_0@ == e,
        },
{
    match exit_code {
        Some(code) => {
            if code != 0 {
                let number = decimal_text(code);
                return Err(Error::ExecCommandError(concat("Exit code: ", number.as_str())));
            }
            Ok(())
        },
        None => Ok(()),
    }
}

/// Reads the port of the application from the labels of a container.
pub fn get_application_port(labels: &Option<TextMap>) -> (port: Result<Option<u16>, Error>)
    ensures
        match labelled_port(labels.deep_view()) {
            Ok(p) => port == Ok::<Option<u16>, Error>(p),
            Err(e) => port is Err && port->Err_0@ == e,
        },
{
    let entries = match labels {
        Some(entries) => entries,
        None => {
            return Ok(None);
        },
    };
    let n = entries.len();
    let mut i: usize = 0;
    while i < n
        invariant
            n == entries@.len(),
            i <= n,
            labels.deep_view() == Some(entries@),
            forall|j: int|
                0 <= j < i ==> !port_label_prefix().is_prefix_of((#[trigger] entries@[j]).0),
        decreases n - i,
    {
        let key = entries.key_at(i);
        if starts_with(key.as_str(), "devcontainer_application_port=") {
            proof {
                lemma_port_label_position(entries@, i as int);
            }
            let prefix_len = "devcontainer_application_port=".unicode_len();
            let key_len = key.as_str().unicode_len();
            let rest = key.as_str().substring_char(prefix_len, key_len);
            assert(rest@ == key@.skip(port_label_prefix().len() as int));
            return match parse_port(rest) {
                Ok(port) => Ok(Some(port)),
                Err(why) => {
                    let reason = why.message();
                    Err(
                        Error::Other(
                            concat(
                                "Could not parse application port from container: ",
                                reason.as_str(),
                            ),
                        ),
                    )
                },
            };
        }
        i = i + 1;
    }
    proof {
        lemma_port_label_position(entries@, n as int);
    }
    Ok(None)
}

/// The `n`th name tried for a new container of `image` in the directory
/// named `dir`.
pub fn container_name(dir: &str, image: &str, n: u32) -> (name: String)
    ensures
        name@ == candidate_name(dir@, image@, n as int),
{
    let chars = chars_of(image);
    let colon = find_char(&chars, 0, ':');
    proof {
        assert(chars@.skip(0) == chars@);
    }
    let base = image.substring_char(0, colon);
    let mut name = concat(dir, "_devcontainer_");
    name.append(base);
    name.append("_");
    let number = decimal_text(n as i64);
    name.append(number.as_str());
    name
}

/// The filters by which the container of the project `name` is found.
pub fn identity_filter_list(name: &str) -> (filters: Vec<String>)
    ensures
        filters.deep_view() == identity_filters(name@),
{
    let mut filters = no_texts();
    push_text(&mut filters, String::from_str("devcontainer=true"));
    push_text(&mut filters, concat("devcontainer_name=", name));
    assert(filters.deep_view() =~= identity_filters(name@));
    filters
}

/// The filters by which the container of a compose service is found.
pub fn compose_filter_list(project: &str, service: &str) -> (filters: Vec<String>)
    ensures
        filters.deep_view() == compose_filters(project@, service@),
{
    let mut filters = no_texts();
    push_text(&mut filters, concat("com.docker.compose.project=", project));
    push_text(&mut filters, concat("com.docker.compose.service=", service));
    assert(filters.deep_view() =~= compose_filters(project@, service@));
    filters
}

/// The labels that a container of the project `name` is created with.
pub fn identity_label_map(name: &str) -> (labels: TextMap)
    ensures
        labels@ == identity_labels(name@),
{
    let mut labels: TextMap = StringMap::new();
    proof {
        lemma_position_is(labels@, "devcontainer"@, 0);
    }
    labels.insert(String::from_str("devcontainer"), String::from_str("true"));
    assert(labels@ =~= seq![("devcontainer"@, "true"@)]);
    proof {
        reveal_strlit("devcontainer");
        reveal_strlit("devcontainer_name");
        assert("devcontainer"@.len() != "devcontainer_name"@.len());
        lemma_position_is(labels@, "devcontainer_name"@, 1);
    }
    labels.insert(String::from_str("devcontainer_name"), String::from_str(name));
    assert(labels@ =~= identity_labels(name@));
    labels
}

/// A request to start the companion application.
#[derive(Debug)]
pub struct SpawnRequest {
    pub program: String,
    /// The arguments behind the program's name.
    pub args: Vec<String>,
    /// The variables added to the environment of the launcher.
    pub envs: TextMap,
}

/// `SpawnRequest` over texts.
pub struct SpawnRequestView {
    pub program: Seq<char>,
    pub args: Seq<Seq<char>>,
    pub envs: Entries,
}

impl View for SpawnRequest {
    type V = SpawnRequestView;

    open spec fn view(&self) -> SpawnRequestView {
        SpawnRequestView { program: self.program@, args: self.args.deep_view(), envs: self.envs@ }
    }
}

/// Each file of `files` behind a `-f`.
pub open spec fn file_flags(files: Seq<Seq<char>>) -> Seq<Seq<char>>
    decreases files.len(),
{
    if files.len() == 0 {
        Seq::empty()
    } else {
        file_flags(files.drop_last()) + seq!["-f"@, files.last()]
    }
}

/// The compose files of a descriptor, in order.
pub open spec fn compose_files(file: DockerComposeFile) -> Seq<Seq<char>> {
    match file {
        DockerComposeFile::File(name) => seq![name@],
        DockerComposeFile::Files(names) => names.deep_view(),
    }
}

/// The compose file that is read for the schema version: the first one;
/// the empty path where there is none.
pub open spec fn compose_sample(file: DockerComposeFile) -> Seq<char> {
    if compose_files(file).len() > 0 {
        compose_files(file)[0]
    } else {
        Seq::empty()
    }
}

/// The command of a descriptor for the hook `hook`.
pub open spec fn descriptor_hook(dc: &DevContainer, hook: CommandHook) -> Option<CommandLineVec> {
    match hook {
        CommandHook::PostCreate => dc.post_create_command,
        CommandHook::PostStart => dc.post_start_command,
        CommandHook::PostAttach => dc.post_attach_command,
    }
}

/// The command of the settings for the hook `hook`.
pub open spec fn settings_hook(settings: &Settings, hook: CommandHook) -> Option<CommandLineVec> {
    match hook {
        CommandHook::PostCreate => settings.post_create_command,
        CommandHook::PostStart => settings.post_start_command,
        CommandHook::PostAttach => settings.post_attach_command,
    }
}

/// The command of a descriptor for the hook `hook`.
pub fn descriptor_hook_command(dc: &DevContainer, hook: CommandHook) -> (command: Option<
    &CommandLineVec,
>)
    ensures
        command.is_some() == (descriptor_hook(dc, hook) is Some),
        command.is_some() ==> *command.unwrap() == descriptor_hook(dc, hook)->0,
{
    match hook {
        CommandHook::PostCreate => dc.post_create_command.as_ref(),
        CommandHook::PostStart => dc.post_start_command.as_ref(),
        CommandHook::PostAttach => dc.post_attach_command.as_ref(),
    }
}

/// The command of the settings for the hook `hook`.
pub fn settings_hook_command(settings: &Settings, hook: CommandHook) -> (command: Option<
    &CommandLineVec,
>)
    ensures
        command.is_some() == (settings_hook(settings, hook) is Some),
        command.is_some() ==> *command.unwrap() == settings_hook(settings, hook)->0,
{
    match hook {
        CommandHook::PostCreate => settings.post_create_command.as_ref(),
        CommandHook::PostStart => settings.post_start_command.as_ref(),
        CommandHook::PostAttach => settings.post_attach_command.as_ref(),
    }
}

fn push_file_flags(list: &mut Vec<String>, files: &Vec<String>)
    ensures
        final(list).deep_view() == old(list).deep_view() + file_flags(files.deep_view()),
{
    let mut i: usize = 0;
    assert(files.deep_view().take(0) =~= Seq::<Seq<char>>::empty());
    assert(list.deep_view() + Seq::<Seq<char>>::empty() =~= list.deep_view());
    while i < files.len()
        invariant
            i <= files.len(),
            list.deep_view() == old(list).deep_view() + file_flags(
                files.deep_view().take(i as int),
            ),
        decreases files.len() - i,
    {
        let ghost done = files.deep_view().take(i as int);
        let ghost next = files.deep_view().take(i + 1);
        let ghost before = list.deep_view();
        push_text(list, String::from_str("-f"));
        push_text(list, files[i].clone());
        proof {
            assert(next.drop_last() =~= done);
            assert(next.last() == files[i as int]@);
            assert(before.push("-f"@).push(files[i as int]@) =~= old(list).deep_view() + (
            file_flags(done) + seq!["-f"@, files[i as int]@]));
        }
        i = i + 1;
    }
    assert(files.deep_view().take(i as int) =~= files.deep_view());
}

impl Project {
    /// The configuration of the project's container, made of `image`.
    pub open spec fn new_container_config(
        &self,
        dc: &DevContainer,
        ctx: ContextView,
        image: Seq<char>,
    ) -> Result<ContainerConfigView, ErrorView> {
        let ports = self.requested_ports(dc, ctx);
        match self.container_mounts(dc) {
            Err(e) => Err(e),
            Ok(mounts) => Ok(
                ContainerConfigView {
                    image: Some(image),
                    env: Some(self.container_environment(dc, ctx)),
                    cmd: if dc.override_command {
                        Some(idle_command())
                    } else {
                        None
                    },
                    labels: Some(identity_labels(dc.project_name(&self.path))),
                    exposed_ports: Some(keys_of(bound(Seq::empty(), ports))),
                    host_config: Some(
                        HostConfigView {
                            mounts: Some(mounts),
                            port_bindings: Some(bound(Seq::empty(), ports)),
                        },
                    ),
                },
            ),
        }
    }

    /// Builds the configuration of the project's container: environment,
    /// mounts, ports, command and the labels by which it is found again.
    pub fn container_config(&self, dc: &DevContainer, ctx: &Context, image: String) -> (made:
        Result<ContainerConfig, Error>)
        requires
            self.settings is Some,
            self.nameable(dc),
        ensures
            match self.new_container_config(dc, ctx@, image@) {
                Ok(config) => made is Ok && made->Ok_0@ == config,
                Err(e) => made is Err && made->Err_0@ == e,
            },
    {
        let mut config = ContainerConfig::for_image(image);
        let _ = self.container_opts_build_envs(dc, ctx, &mut config);
        match self.container_opts_build_mounts(dc, &mut config) {
            Ok(()) => {},
            Err(e) => {
                return Err(e);
            },
        }
        let _ = self.container_opts_build_ports(dc, ctx, &mut config);
        let _ = self.container_opts_build_cmd(dc, &mut config);
        let name = dc.get_name(&self.path);
        config.labels = Some(identity_label_map(name.as_str()));
        proof {
            let mounts = self.container_mounts(dc)->Ok_0;
            assert(Seq::<crate::mount_from_str::MountView>::empty() + mounts =~= mounts);
        }
        Ok(config)
    }

    /// The path of the compose file that is read for the schema version.
    pub open spec fn compose_sample_path(&self, dc: &DevContainer) -> Seq<char> {
        joined(self.folder(), compose_sample(dc.docker_compose_file->0))
    }

    pub fn get_compose_sample_path(&self, dc: &DevContainer) -> (path: String)
        requires
            dc.docker_compose_file is Some,
        ensures
            path@ == self.compose_sample_path(dc),
    {
        let folder = self.get_devcontainer_folder();
        match &dc.docker_compose_file {
            Some(DockerComposeFile::File(name)) => join_path(folder.as_str(), name.as_str()),
            Some(DockerComposeFile::Files(names)) => {
                if names.len() > 0 {
                    assert(names.deep_view()[0] == names[0]@);
                    join_path(folder.as_str(), names[0].as_str())
                } else {
                    proof {
                        reveal_strlit("");
                        assert(""@ =~= Seq::<char>::empty());
                        assert(names.deep_view().len() == 0);
                    }
                    join_path(folder.as_str(), "")
                }
            },
            None => folder,
        }
    }

    /// The name of the service that the overlay is made for: the service
    /// of the descriptor, and the project's name where it names none.
    pub open spec fn overlay_service(dc: &DevContainer, ctx: ContextView) -> Seq<char> {
        match dc.service {
            Some(service) => service@,
            None => ctx.project_name,
        }
    }

    /// The ports that the overlay publishes beside those of the settings:
    /// the port of the application, once chosen.
    pub open spec fn overlay_ext_ports(ctx: ContextView) -> Option<Seq<i32>> {
        match ctx.application_port {
            Some(port) => Some(seq![port as i32]),
            None => None,
        }
    }

    /// The compose overlay of the project for a compose document of the
    /// schema `version`; none for a project without settings.
    pub open spec fn compose_settings_ext(
        &self,
        dc: &DevContainer,
        ctx: ContextView,
        version: Seq<char>,
    ) -> Option<ComposeOverrideView> {
        match self.settings {
            None => None,
            Some(settings) => Some(
                settings.compose_override(
                    Self::overlay_service(dc, ctx),
                    version,
                    Some(self.devcontainer_envs(dc, ctx)),
                    Self::overlay_ext_ports(ctx),
                ),
            ),
        }
    }

    pub fn build_docker_compose_settings_ext(
        &self,
        devcontainer: &DevContainer,
        ctx: &Context,
        version: String,
    ) -> (made: Option<ComposeOverride>)
        requires
            self.nameable(devcontainer),
        ensures
            match self.compose_settings_ext(devcontainer, ctx@, version@) {
                Some(overlay) => made is Some && made->0@ == overlay,
                None => made is None,
            },
    {
        let settings = match &self.settings {
            Some(settings) => settings,
            None => {
                return None;
            },
        };
        let ext_ports: Option<Vec<i32>> = match ctx.application_port {
            None => None,
            Some(port) => {
                let mut ports: Vec<i32> = Vec::new();
                ports.push(port as i32);
                assert(ports.deep_view() =~= seq![port as i32]);
                Some(ports)
            },
        };
        let service = match &devcontainer.service {
            Some(service) => service.clone(),
            None => ctx.project_name.clone(),
        };
        let envs = self.get_devcontainer_envs(devcontainer, ctx);
        Some(settings.generate_compose_override(service, version, Some(envs), ext_ports))
    }

    /// The compose command of the project: the program, the project's
    /// name, each compose file behind a `-f`, then the overlay behind
    /// another, then `extended_args`.
    pub open spec fn docker_compose_cmd(
        dc: &DevContainer,
        ctx: ContextView,
        settings_ext: Option<Seq<char>>,
        extended_args: Option<Seq<Seq<char>>>,
    ) -> Seq<Seq<char>> {
        seq!["docker-compose"@, "-p"@, ctx.project_name] + file_flags(
            compose_files(dc.docker_compose_file->0),
        ) + match settings_ext {
            Some(path) => seq!["-f"@, path],
            None => Seq::empty(),
        } + match extended_args {
            Some(more) => more,
            None => Seq::empty(),
        }
    }

    pub fn build_docker_compose_cmd(
        &self,
        devcontainer: &DevContainer,
        ctx: &Context,
        settings_ext: Option<String>,
        extended_args: Option<Vec<String>>,
    ) -> (args: Vec<String>)
        requires
            devcontainer.docker_compose_file is Some,
        ensures
            args.deep_view() == Self::docker_compose_cmd(
                devcontainer,
                ctx@,
                settings_ext.deep_view(),
                extended_args.deep_view(),
            ),
    {
        let mut args = no_texts();
        push_text(&mut args, String::from_str("docker-compose"));
        push_text(&mut args, String::from_str("-p"));
        push_text(&mut args, ctx.project_name.clone());
        assert(args.deep_view() =~= seq!["docker-compose"@, "-p"@, ctx.project_name@]);
        match &devcontainer.docker_compose_file {
            Some(DockerComposeFile::File(name)) => {
                let ghost before = args.deep_view();
                push_text(&mut args, String::from_str("-f"));
                push_text(&mut args, name.clone());
                proof {
                    let files = seq![name@];
                    assert(files.drop_last() =~= Seq::<Seq<char>>::empty());
                    assert(file_flags(files.drop_last()) =~= Seq::<Seq<char>>::empty());
                    assert(file_flags(files) =~= seq!["-f"@, name@]);
                    assert(args.deep_view() =~= before + file_flags(files));
                }
            },
            Some(DockerComposeFile::Files(names)) => {
                push_file_flags(&mut args, names);
            },
            None => {},
        }
        match settings_ext {
            Some(path) => {
                let ghost before = args.deep_view();
                push_text(&mut args, String::from_str("-f"));
                push_text(&mut args, path);
                assert(args.deep_view() =~= before + seq!["-f"@, path@]);
            },
            None => {
                assert(args.deep_view() + Seq::<Seq<char>>::empty() =~= args.deep_view());
            },
        }
        match &extended_args {
            Some(more) => {
                append_texts(&mut args, more);
            },
            None => {
                assert(args.deep_view() + Seq::<Seq<char>>::empty() =~= args.deep_view());
            },
        }
        args
    }

    /// The request that starts the companion application, where the
    /// settings name one: its program with its arguments, and for its
    /// environment the descriptor's `remoteEnv` with the project's variables
    /// laid over it. A command without a program cannot be started.
    pub open spec fn application_request(&self, dc: &DevContainer, ctx: ContextView) -> Option<
        Result<SpawnRequestView, ErrorView>,
    > {
        match self.settings->0.application {
            None => None,
            Some(application) => {
                let args = application.cmd.args();
                if args.len() == 0 {
                    Some(
                        Err(
                            ErrorView::UpError(
                                UpErrorView::ApplicationSpawn(
                                    "the application's command is empty"@,
                                ),
                            ),
                        ),
                    )
                } else {
                    Some(
                        Ok(
                            SpawnRequestView {
                                program: args[0],
                                args: args.skip(1),
                                envs: overlay(
                                    match dc.remote_env {
                                        Some(env) => env@,
                                        None => Seq::empty(),
                                    },
                                    self.devcontainer_envs(dc, ctx),
                                ),
                            },
                        ),
                    )
                }
            },
        }
    }

    pub fn spawn_application(&self, devcontainer: &DevContainer, ctx: &Context) -> (request:
        Option<Result<SpawnRequest, Error>>)
        requires
            self.settings is Some,
            self.nameable(devcontainer),
        ensures
            match self.application_request(devcontainer, ctx@) {
                None => request is None,
                Some(Ok(r)) => request is Some && request->0 is Ok && request->0->Ok_0@ == r,
                Some(Err(e)) => request is Some && request->0 is Err && request->0->Err_0@ == e,
            },
    {
        let settings = match &self.settings {
            Some(settings) => settings,
            None => {
                return None;
            },
        };
        let application = match &settings.application {
            Some(application) => application,
            None => {
                return None;
            },
        };
        let mut args = application.cmd.to_args_vec();
        if args.len() == 0 {
            return Some(
                Err(
                    Error::UpError(
                        UpError::ApplicationSpawn(
                            String::from_str("the application's command is empty"),
                        ),
                    ),
                ),
            );
        }
        let ghost all = args.deep_view();
        let program = args.remove(0);
        assert(args.deep_view() =~= all.skip(1));
        let mut envs: TextMap = match &devcontainer.remote_env {
            Some(env) => env.clone(),
            None => StringMap::new(),
        };
        let own = self.get_devcontainer_envs(devcontainer, ctx);
        envs.extend(&own);
        Some(Ok(SpawnRequest { program, args, envs }))
    }
}

} // verus!
