//! The life of a development container as a state machine. The launcher
//! asks for one thing at a time: each step takes what the last request came
//! to and says what is asked next. Nothing here talks to the runtime; the
//! caller carries the requests out and brings back the events.

use vstd::prelude::*;
use vstd::string::*;
use crate::container::{ContainerConfig, ContainerConfigView, ContainerStat, ContainerStatView};
use crate::devcontainer::{CommandLineVec, DevContainer, Mode, ShutdownAction};
use crate::errors::{DownError, DownErrorView, Error, ErrorView, UpError, UpErrorView};
use crate::paths::{join_path, joined};
use crate::project::{
    formatted_image, optional_texts, CommandHook, Context, ContextView, Project,
};
use crate::provision::{
    candidate_name, check_exit_code, check_process_exit, compose_filter_list, compose_filters,
    container_name, descriptor_hook, descriptor_hook_command, docker_build_image_tag,
    exec_outcome, get_application_port, identity_filter_list, identity_filters, labelled_port,
    process_outcome, settings_hook, settings_hook_command, sha1_hex, tag_from_digest,
    SpawnRequest, SpawnRequestView, NAME_ATTEMPTS,
};
use crate::settings::{ComposeOverride, ComposeOverrideView, Settings};
use crate::text::{append_texts, no_texts, push_text};

verus! {

/// What the launcher asks its caller to do next.
#[derive(Debug)]
pub enum Action {
    /// Pull the image and read the stream of events to its end.
    PullImage { image: String },
    /// Read the Dockerfile at `path`.
    ReadDockerfile { path: String },
    /// Build the image `tag` from the directory `context_dir`, packed under
    /// the name `devcontainer`, with the Dockerfile at `dockerfile` inside the
    /// pack; read the stream of events to its end.
    BuildImage { context_dir: String, dockerfile: String, tag: String },
    /// List the containers, stopped ones too, that carry every label of
    /// `filters`.
    FindContainer { filters: Vec<String> },
    /// Ask the system for a free port.
    AllocatePort,
    /// List the containers, stopped ones too, with the name `candidate`.
    ProbeName { candidate: String },
    CreateContainer { name: Option<String>, config: ContainerConfig },
    StartContainer { id: String },
    StopContainer { id: String },
    /// Run the command `args` of the hook `hook` in the container `id`;
    /// `user` tells the command of the settings from that of the descriptor.
    RunHook { hook: CommandHook, user: bool, id: String, args: Vec<String> },
    /// Read the compose file at `path` and tell its schema version.
    ReadComposeVersion { path: String },
    /// Write the overlay as YAML into the directory for temporary files.
    WriteComposeOverride { overlay: ComposeOverride },
    /// Run the command `args` in the directory `dir`, wait for its end and
    /// tell its exit code.
    RunCompose { args: Vec<String>, dir: String },
    SpawnApplication { request: SpawnRequest },
    /// Wait for whichever comes first: the end of the application, where one
    /// was started, the end of the container, or an interrupt. None of the
    /// three comes before the others; what loses the race is given up.
    Wait { with_application: bool, container_id: String },
    /// Nothing is left to do; the command ends with this outcome.
    Finish(Result<(), Error>),
}

/// `Action` over texts.
pub enum ActionView {
    PullImage { image: Seq<char> },
    ReadDockerfile { path: Seq<char> },
    BuildImage { context_dir: Seq<char>, dockerfile: Seq<char>, tag: Seq<char> },
    FindContainer { filters: Seq<Seq<char>> },
    AllocatePort,
    ProbeName { candidate: Seq<char> },
    CreateContainer { name: Option<Seq<char>>, config: ContainerConfigView },
    StartContainer { id: Seq<char> },
    StopContainer { id: Seq<char> },
    RunHook { hook: CommandHook, user: bool, id: Seq<char>, args: Seq<Seq<char>> },
    ReadComposeVersion { path: Seq<char> },
    WriteComposeOverride { overlay: ComposeOverrideView },
    RunCompose { args: Seq<Seq<char>>, dir: Seq<char> },
    SpawnApplication { request: SpawnRequestView },
    Wait { with_application: bool, container_id: Seq<char> },
    Finish(Result<(), ErrorView>),
}

impl View for Action {
    type V = ActionView;

    open spec fn view(&self) -> ActionView {
        match self {
            Action::PullImage { image } => ActionView::PullImage { image: image@ },
            Action::ReadDockerfile { path } => ActionView::ReadDockerfile { path: path@ },
            Action::BuildImage { context_dir, dockerfile, tag } => ActionView::BuildImage {
                context_dir: context_dir@,
                dockerfile: dockerfile@,
                tag: tag@,
            },
            Action::FindContainer { filters } => ActionView::FindContainer {
                filters: filters.deep_view(),
            },
            Action::AllocatePort => ActionView::AllocatePort,
            Action::ProbeName { candidate } => ActionView::ProbeName { candidate: candidate@ },
            Action::CreateContainer { name, config } => ActionView::CreateContainer {
                name: name.deep_view(),
                config: config@,
            },
            Action::StartContainer { id } => ActionView::StartContainer { id: id@ },
            Action::StopContainer { id } => ActionView::StopContainer { id: id@ },
            Action::RunHook { hook, user, id, args } => ActionView::RunHook {
                hook: *hook,
                user: *user,
                id: id@,
                args: args.deep_view(),
            },
            Action::ReadComposeVersion { path } => ActionView::ReadComposeVersion { path: path@ },
            Action::WriteComposeOverride { overlay } => ActionView::WriteComposeOverride {
                overlay: overlay@,
            },
            Action::RunCompose { args, dir } => ActionView::RunCompose {
                args: args.deep_view(),
                dir: dir@,
            },
            Action::SpawnApplication { request } => ActionView::SpawnApplication {
                request: request@,
            },
            Action::Wait { with_application, container_id } => ActionView::Wait {
                with_application: *with_application,
                container_id: container_id@,
            },
            Action::Finish(outcome) => ActionView::Finish(
                match outcome {
                    Ok(()) => Ok(()),
                    Err(e) => Err(e@),
                },
            ),
        }
    }
}

/// Why the overlay could not be written.
#[derive(Debug)]
pub enum OverlayFailure {
    /// The overlay could not be put into YAML.
    Yaml(String),
    /// The file could not be created or written.
    Io(String),
}

/// How the wait for the end of an `up` came out.
#[derive(Debug)]
pub enum WaitOutcome {
    /// The application ended; with the reason where waiting for it failed.
    ApplicationExited(Result<(), String>),
    /// The container ended by itself.
    ContainerExited,
    /// The user interrupted the launcher.
    Interrupted,
}

/// What a request came to.
#[derive(Debug)]
pub enum Event {
    /// A request without a result was carried out, or failed for the reason
    /// given: a pull, a build, a start, a stop, the start of the application.
    Done(Result<(), String>),
    /// The compose command ended with the exit code given, or with none
    /// where a signal ended it; or it could not be run or waited for, for the
    /// reason given.
    ProcessExited(Result<Option<i32>, String>),
    /// A request for a text was answered, or failed for the reason given:
    /// the contents of the Dockerfile, the schema version of the compose
    /// file, the identifier of the container created.
    Text(Result<String, String>),
    /// The containers that the runtime listed, in its order.
    Containers(Result<Vec<ContainerStat>, String>),
    /// The port that the system gave, if it gave one.
    Port(Option<u16>),
    /// The exit code of the command run in the container, where the runtime
    /// knows one.
    ExecFinished(Result<Option<i64>, String>),
    /// The path of the overlay written.
    OverlayWritten(Result<String, OverlayFailure>),
    Waited(WaitOutcome),
}

/// `OverlayFailure` over texts.
pub enum OverlayFailureView {
    Yaml(Seq<char>),
    Io(Seq<char>),
}

/// `WaitOutcome` over texts.
pub enum WaitOutcomeView {
    ApplicationExited(Result<(), Seq<char>>),
    ContainerExited,
    Interrupted,
}

/// `Event` over texts.
pub enum EventView {
    Done(Result<(), Seq<char>>),
    ProcessExited(Result<Option<i32>, Seq<char>>),
    Text(Result<Seq<char>, Seq<char>>),
    Containers(Result<Seq<ContainerStatView>, Seq<char>>),
    Port(Option<u16>),
    ExecFinished(Result<Option<i64>, Seq<char>>),
    OverlayWritten(Result<Seq<char>, OverlayFailureView>),
    Waited(WaitOutcomeView),
}

impl View for OverlayFailure {
    type V = OverlayFailureView;

    open spec fn view(&self) -> OverlayFailureView {
        match self {
            OverlayFailure::Yaml(why) => OverlayFailureView::Yaml(why@),
            OverlayFailure::Io(why) => OverlayFailureView::Io(why@),
        }
    }
}

impl View for WaitOutcome {
    type V = WaitOutcomeView;

    open spec fn view(&self) -> WaitOutcomeView {
        match self {
            WaitOutcome::ApplicationExited(Ok(())) => WaitOutcomeView::ApplicationExited(Ok(())),
            WaitOutcome::ApplicationExited(Err(why)) => WaitOutcomeView::ApplicationExited(
                Err(why@),
            ),
            WaitOutcome::ContainerExited => WaitOutcomeView::ContainerExited,
            WaitOutcome::Interrupted => WaitOutcomeView::Interrupted,
        }
    }
}

impl View for Event {
    type V = EventView;

    open spec fn view(&self) -> EventView {
        match self {
            Event::Done(Ok(())) => EventView::Done(Ok(())),
            Event::Done(Err(why)) => EventView::Done(Err(why@)),
            Event::ProcessExited(Ok(code)) => EventView::ProcessExited(Ok(*code)),
            Event::ProcessExited(Err(why)) => EventView::ProcessExited(Err(why@)),
            Event::Text(Ok(text)) => EventView::Text(Ok(text@)),
            Event::Text(Err(why)) => EventView::Text(Err(why@)),
            Event::Containers(Ok(found)) => EventView::Containers(Ok(found.deep_view())),
            Event::Containers(Err(why)) => EventView::Containers(Err(why@)),
            Event::Port(port) => EventView::Port(*port),
            Event::ExecFinished(Ok(code)) => EventView::ExecFinished(Ok(*code)),
            Event::ExecFinished(Err(why)) => EventView::ExecFinished(Err(why@)),
            Event::OverlayWritten(Ok(path)) => EventView::OverlayWritten(Ok(path@)),
            Event::OverlayWritten(Err(why)) => EventView::OverlayWritten(Err(why@)),
            Event::Waited(outcome) => EventView::Waited(outcome@),
        }
    }
}

/// Where a command of the launcher stands: the request it waits for.
#[derive(Clone, Copy, Debug, PartialEq, Eq, Structural)]
pub enum Phase {
    /// The image is being pulled.
    Pulling,
    /// The Dockerfile is being read.
    ReadingDockerfile,
    /// The image is being built.
    Building,
    /// The container of the project is being looked for.
    Finding,
    /// A port for the application is being asked for.
    AllocatingPort,
    /// A name for the new container is being tried.
    ProbingName,
    /// The container is being created.
    Creating,
    /// The container is being started.
    Starting,
    /// A hook is running in the container.
    Hooks,
    /// The container of the compose service is being looked for, before the
    /// compose command.
    ComposeFinding,
    /// The schema version of the compose file is being read.
    ComposeVersion,
    /// The overlay is being written.
    ComposeWriting,
    /// The compose command is running.
    ComposeRunning,
    /// The container of the compose service is being looked for, after the
    /// compose command.
    ComposeFindingAgain,
    /// The application is being started.
    Spawning,
    /// The end of the application, of the container or of the user's
    /// patience is waited for.
    Waiting,
    /// The container is being looked for, to be stopped.
    DownFinding,
    /// The container is being stopped.
    Stopping,
    /// The command has ended.
    Finished,
}

/// The state of one command of the launcher.
#[derive(Debug)]
pub struct Lifecycle {
    pub phase: Phase,
    pub ctx: Context,
    /// Whether `up` waits once the container runs.
    pub should_wait: bool,
    /// Whether the environment is being taken down.
    pub stopping: bool,
    /// Whether the taking down follows an `up`.
    pub from_up: bool,
    /// The image that the container is made of, once known.
    pub image: String,
    /// The container, once known.
    pub container_id: String,
    /// Whether the container was there before this command.
    pub existed: bool,
    /// Whether the container ran before this command.
    pub was_running: bool,
    /// The hook that runs, or the first that may run next: two for each of
    /// the three hooks, the descriptor's before the settings'.
    pub hook_slot: u8,
    /// The name that is tried for the new container.
    pub attempt: u32,
    /// The configuration of the new container, while its name is sought.
    pub config: Option<ContainerConfig>,
    /// Whether the application was started.
    pub application: bool,
}

/// `Lifecycle` over texts.
pub struct LifecycleView {
    pub phase: Phase,
    pub ctx: ContextView,
    pub should_wait: bool,
    pub stopping: bool,
    pub from_up: bool,
    pub image: Seq<char>,
    pub container_id: Seq<char>,
    pub existed: bool,
    pub was_running: bool,
    pub hook_slot: u8,
    pub attempt: u32,
    pub config: Option<ContainerConfigView>,
    pub application: bool,
}

impl View for Lifecycle {
    type V = LifecycleView;

    open spec fn view(&self) -> LifecycleView {
        LifecycleView {
            phase: self.phase,
            ctx: self.ctx@,
            should_wait: self.should_wait,
            stopping: self.stopping,
            from_up: self.from_up,
            image: self.image@,
            container_id: self.container_id@,
            existed: self.existed,
            was_running: self.was_running,
            hook_slot: self.hook_slot,
            attempt: self.attempt,
            config: self.config.deep_view(),
            application: self.application,
        }
    }
}

/// The hook of a slot: two slots for each hook, in the order in which
/// the hooks run.
pub open spec fn slot_hook(slot: int) -> CommandHook {
    if slot < 2 {
        CommandHook::PostCreate
    } else if slot < 4 {
        CommandHook::PostStart
    } else {
        CommandHook::PostAttach
    }
}

/// The state `s` at its end, with the outcome of the command.
pub open spec fn finished(s: LifecycleView, outcome: Result<(), ErrorView>) -> (
    LifecycleView,
    ActionView,
) {
    (LifecycleView { phase: Phase::Finished, ..s }, ActionView::Finish(outcome))
}

/// The failure of a step that was given an event it did not ask for.
pub open spec fn unexpected() -> ErrorView {
    ErrorView::Other("unexpected event"@)
}

/// The slot at which the hooks of a container begin: a new container
/// runs every hook, one that was stopped those from its start on, and one
/// that ran only the last.
pub open spec fn first_slot(s: LifecycleView) -> int {
    if !s.existed {
        0
    } else if !s.was_running {
        2
    } else {
        4
    }
}

/// The action that the descriptor asks for when the launcher goes down
/// after an `up`, by its mode.
pub open spec fn stop_action(dc: &DevContainer) -> ShutdownAction {
    if dc.mode() == Mode::Compose {
        ShutdownAction::StopCompose
    } else {
        ShutdownAction::StopContainer
    }
}

/// Whether going down stops anything: always where the user asked for
/// it, and after an `up` only where the descriptor's shutdown action is the
/// one of its mode.
pub open spec fn should_stop(dc: &DevContainer, from_up: bool) -> bool {
    !from_up || dc.shutdown_action == Some(stop_action(dc))
}

fn finish(state: Lifecycle, outcome: Result<(), Error>) -> (next: (Lifecycle, Action))
    ensures
        (next.0@, next.1@) == finished(
            state@,
            match outcome {
                Ok(()) => Ok(()),
                Err(e) => Err(e@),
            },
        ),
{
    let mut state = state;
    state.phase = Phase::Finished;
    (state, Action::Finish(outcome))
}

fn fail_unexpected(state: Lifecycle) -> (next: (Lifecycle, Action))
    ensures
        (next.0@, next.1@) == finished(state@, Err(unexpected())),
{
    finish(state, Err(Error::Other(String::from_str("unexpected event"))))
}

fn hook_of(slot: u8) -> (hook: CommandHook)
    ensures
        hook == slot_hook(slot as int),
{
    if slot < 2 {
        CommandHook::PostCreate
    } else if slot < 4 {
        CommandHook::PostStart
    } else {
        CommandHook::PostAttach
    }
}

impl Project {
    /// Whether the project is loaded: it has settings and a valid
    /// descriptor, and a name.
    pub open spec fn ready(&self) -> bool {
        &&& self.devcontainer is Some
        &&& self.settings is Some
        &&& self.devcontainer->0.valid()
        &&& self.nameable(&self.devcontainer->0)
    }

    fn descriptor(&self) -> (dc: &DevContainer)
        requires
            self.devcontainer is Some,
        ensures
            *dc == self.devcontainer->0,
    {
        self.devcontainer.as_ref().unwrap()
    }

    fn user_settings(&self) -> (settings: &Settings)
        requires
            self.settings is Some,
        ensures
            *settings == self.settings->0,
    {
        self.settings.as_ref().unwrap()
    }

    /// The command of a slot: the descriptor's in the even slots, the
    /// settings' in the odd ones.
    pub open spec fn slot_command(&self, slot: int) -> Option<CommandLineVec> {
        if slot % 2 == 0 {
            descriptor_hook(&self.devcontainer->0, slot_hook(slot))
        } else {
            settings_hook(&self.settings->0, slot_hook(slot))
        }
    }

    /// The first slot from `from` on that has a command; 6 where none has.
    pub open spec fn next_slot(&self, from: int) -> int
        decreases 6 - from,
    {
        if from >= 6 {
            6
        } else if self.slot_command(from) is Some {
            from
        } else {
            self.next_slot(from + 1)
        }
    }

    fn command_at(&self, slot: u8) -> (command: Option<&CommandLineVec>)
        requires
            self.ready(),
            slot < 6,
        ensures
            command.is_some() == (self.slot_command(slot as int) is Some),
            command.is_some() ==> *command.unwrap() == self.slot_command(slot as int)->0,
    {
        if slot % 2 == 0 {
            descriptor_hook_command(self.descriptor(), hook_of(slot))
        } else {
            settings_hook_command(self.user_settings(), hook_of(slot))
        }
    }

    /// What follows once the container runs and its hooks are through:
    /// the application is started where the settings name one.
    pub open spec fn provisioned(&self, s: LifecycleView) -> (LifecycleView, ActionView) {
        match self.application_request(&self.devcontainer->0, s.ctx) {
            Some(Ok(request)) => (
                LifecycleView { phase: Phase::Spawning, ..s },
                ActionView::SpawnApplication { request },
            ),
            Some(Err(e)) => finished(s, Err(e)),
            None => Self::spawned(s, false),
        }
    }

    /// What follows once the application is started, or none is wanted:
    /// the command ends where it is not to wait, and waits where it is.
    pub open spec fn spawned(s: LifecycleView, application: bool) -> (LifecycleView, ActionView) {
        let s = LifecycleView { application, ..s };
        if !s.should_wait {
            finished(s, Ok(()))
        } else {
            (
                LifecycleView { phase: Phase::Waiting, ..s },
                ActionView::Wait { with_application: application, container_id: s.container_id },
            )
        }
    }

    /// The hooks from the slot `from` on: the first that has a command is
    /// run, and where none has, the container is ready.
    pub open spec fn run_hooks(&self, s: LifecycleView, from: int) -> (LifecycleView, ActionView) {
        let slot = self.next_slot(from);
        if slot < 6 {
            (
                LifecycleView { phase: Phase::Hooks, hook_slot: slot as u8, ..s },
                ActionView::RunHook {
                    hook: slot_hook(slot),
                    user: slot % 2 == 1,
                    id: s.container_id,
                    args: self.slot_command(slot)->0.args(),
                },
            )
        } else {
            self.provisioned(LifecycleView { hook_slot: 6, ..s })
        }
    }

    fn after_spawn(state: Lifecycle, application: bool) -> (next: (Lifecycle, Action))
        ensures
            (next.0@, next.1@) == Self::spawned(state@, application),
    {
        let mut state = state;
        state.application = application;
        if !state.should_wait {
            finish(state, Ok(()))
        } else {
            state.phase = Phase::Waiting;
            let container_id = state.container_id.clone();
            (state, Action::Wait { with_application: application, container_id })
        }
    }

    fn after_provisioning(&self, state: Lifecycle) -> (next: (Lifecycle, Action))
        requires
            self.ready(),
        ensures
            (next.0@, next.1@) == self.provisioned(state@),
    {
        let mut state = state;
        match self.spawn_application(self.descriptor(), &state.ctx) {
            Some(Ok(request)) => {
                state.phase = Phase::Spawning;
                (state, Action::SpawnApplication { request })
            },
            Some(Err(e)) => finish(state, Err(e)),
            None => Self::after_spawn(state, false),
        }
    }

    fn hooks_from(&self, state: Lifecycle, from: u8) -> (next: (Lifecycle, Action))
        requires
            self.ready(),
            from <= 6,
        ensures
            (next.0@, next.1@) == self.run_hooks(state@, from as int),
    {
        let mut current = state;
        let mut slot: u8 = from;
        while slot < 6
            invariant
                self.ready(),
                current@ == state@,
                from <= slot <= 6,
                self.next_slot(from as int) == self.next_slot(slot as int),
            decreases 6 - slot,
        {
            match self.command_at(slot) {
                Some(command) => {
                    current.phase = Phase::Hooks;
                    current.hook_slot = slot;
                    let id = current.container_id.clone();
                    let args = command.to_args_vec();
                    return (
                        current,
                        Action::RunHook { hook: hook_of(slot), user: slot % 2 == 1, id, args },
                    );
                },
                None => {},
            }
            slot = slot + 1;
        }
        current.hook_slot = 6;
        self.after_provisioning(current)
    }
}

/// Whether a phase belongs to the compose command.
pub open spec fn compose_phase(phase: Phase) -> bool {
    phase == Phase::ComposeFinding || phase == Phase::ComposeVersion || phase
        == Phase::ComposeWriting || phase == Phase::ComposeRunning || phase
        == Phase::ComposeFindingAgain
}

/// What the end of the compose command came to: a failure where it could
/// not be run or waited for, and else what its exit code tells.
pub open spec fn compose_outcome(ended: Result<Option<i32>, Seq<char>>) -> Result<(), Seq<char>> {
    match ended {
        Ok(code) => process_outcome(code),
        Err(why) => Err(why),
    }
}

/// What the runtime is told where no port can be had for the application.
pub open spec fn no_port() -> ErrorView {
    ErrorView::Other("Could select an available port for application"@)
}

/// What is told where the compose command left no container behind.
pub open spec fn no_compose_container() -> ErrorView {
    ErrorView::UpError(
        UpErrorView::ContainerCreate("Could not locate container after compose up"@),
    )
}

impl Project {
    /// The search for the project's container, by its labels.
    pub open spec fn find(&self, s: LifecycleView) -> (LifecycleView, ActionView) {
        (
            LifecycleView { phase: Phase::Finding, ..s },
            ActionView::FindContainer {
                filters: identity_filters(self.devcontainer->0.project_name(&self.path)),
            },
        )
    }

    /// The reading of the compose file's schema version, with which the
    /// compose command begins.
    pub open spec fn compose_begin(&self, s: LifecycleView) -> (LifecycleView, ActionView) {
        (
            LifecycleView { phase: Phase::ComposeVersion, ..s },
            ActionView::ReadComposeVersion {
                path: self.compose_sample_path(&self.devcontainer->0),
            },
        )
    }

    /// The arguments of the compose command: `stop` where the stack is
    /// taken down, else `up -d` with the service and the services to run.
    pub open spec fn compose_arguments(&self, s: LifecycleView, overlay: Seq<char>) -> Seq<
        Seq<char>,
    > {
        let dc = &self.devcontainer->0;
        if s.stopping {
            Self::docker_compose_cmd(dc, s.ctx, Some(overlay), Some(seq!["stop"@]))
        } else {
            Self::docker_compose_cmd(dc, s.ctx, Some(overlay), None) + seq![
                "up"@,
                "-d"@,
                dc.service->0@,
            ] + optional_texts(dc.run_services.deep_view())
        }
    }

    /// Going down: nothing where the shutdown policy says so, the compose
    /// `stop` in compose mode, and else the search for the container that is
    /// to be stopped. The port of the application plays no part in it.
    pub open spec fn take_down(&self, s: LifecycleView, from_up: bool) -> (
        LifecycleView,
        ActionView,
    ) {
        let dc = &self.devcontainer->0;
        let s = LifecycleView {
            stopping: true,
            from_up,
            ctx: ContextView { application_port: None, ..s.ctx },
            ..s
        };
        if !should_stop(dc, from_up) {
            finished(s, Ok(()))
        } else if dc.mode() == Mode::Compose {
            self.compose_begin(s)
        } else {
            (
                LifecycleView { phase: Phase::DownFinding, ..s },
                ActionView::FindContainer { filters: identity_filters(dc.project_name(&self.path)) },
            )
        }
    }

    /// The request that creates the container under `name`.
    pub open spec fn create(s: LifecycleView, name: Option<Seq<char>>) -> (
        LifecycleView,
        ActionView,
    ) {
        (
            LifecycleView { phase: Phase::Creating, config: None, ..s },
            ActionView::CreateContainer { name, config: s.config->0 },
        )
    }

    /// The name that is tried at the attempt `n`.
    pub open spec fn attempt_name(&self, s: LifecycleView, n: int) -> Seq<char> {
        candidate_name(self.path.file_name->0@, s.image, n)
    }

    /// The question whether the name of the attempt `n` is taken.
    pub open spec fn probe(&self, s: LifecycleView, n: int) -> (LifecycleView, ActionView) {
        (
            LifecycleView { phase: Phase::ProbingName, attempt: n as u32, ..s },
            ActionView::ProbeName { candidate: self.attempt_name(s, n) },
        )
    }

    /// What follows once the port of the application is known. A container
    /// that runs gets its attach hook; one that is stopped is started; and
    /// where there is none, one is configured and a name is sought for it.
    pub open spec fn with_port(&self, s: LifecycleView, port: u16) -> (LifecycleView, ActionView) {
        let dc = &self.devcontainer->0;
        let s = LifecycleView { ctx: ContextView { application_port: Some(port), ..s.ctx }, ..s };
        if s.existed {
            if !s.was_running {
                (
                    LifecycleView { phase: Phase::Starting, ..s },
                    ActionView::StartContainer { id: s.container_id },
                )
            } else {
                self.run_hooks(s, first_slot(s))
            }
        } else {
            match self.new_container_config(dc, s.ctx, s.image) {
                Err(e) => finished(s, Err(e)),
                Ok(config) => {
                    let s = LifecycleView { config: Some(config), ..s };
                    if self.path.file_name is Some {
                        self.probe(s, 1)
                    } else {
                        Self::create(s, None)
                    }
                },
            }
        }
    }

    /// What the search for the project's container leads to.
    pub open spec fn found(&self, s: LifecycleView, list: Seq<ContainerStatView>) -> (
        LifecycleView,
        ActionView,
    ) {
        if list.len() > 0 {
            let s = LifecycleView {
                existed: true,
                was_running: list[0].running(),
                container_id: list[0].id,
                ..s
            };
            match labelled_port(list[0].labels) {
                Err(e) => finished(s, Err(e)),
                Ok(Some(port)) => self.with_port(s, port),
                Ok(None) => (LifecycleView { phase: Phase::AllocatingPort, ..s }, ActionView::AllocatePort),
            }
        } else {
            let s = LifecycleView { existed: false, was_running: false, ..s };
            (LifecycleView { phase: Phase::AllocatingPort, ..s }, ActionView::AllocatePort)
        }
    }

    /// What the answer to the question after a name leads to: the next
    /// name where this one is taken, no name at all once every name was
    /// taken, and this name where it is free or the runtime gave no answer.
    pub open spec fn probed(
        &self,
        s: LifecycleView,
        answer: Result<Seq<ContainerStatView>, Seq<char>>,
    ) -> (LifecycleView, ActionView) {
        if s.config is None || self.path.file_name is None {
            finished(s, Err(unexpected()))
        } else if answer is Ok && answer->Ok_0.len() > 0 {
            if s.attempt < NAME_ATTEMPTS {
                self.probe(s, s.attempt + 1)
            } else {
                Self::create(s, None)
            }
        } else {
            Self::create(s, Some(self.attempt_name(s, s.attempt as int)))
        }
    }

    /// The step of the launcher: from where it stands and what the last
    /// request came to, to where it stands next and what it asks for.
    pub open spec fn next(&self, s: LifecycleView, e: EventView) -> (LifecycleView, ActionView) {
        let dc = &self.devcontainer->0;
        if compose_phase(s.phase) && dc.mode() != Mode::Compose {
            finished(s, Err(unexpected()))
        } else {
            match (s.phase, e) {
                (Phase::Pulling, EventView::Done(Ok(()))) => self.find(s),
                (Phase::Pulling, EventView::Done(Err(why))) => finished(
                    s,
                    Err(ErrorView::UpError(UpErrorView::ImagePull(why))),
                ),
                (Phase::ReadingDockerfile, EventView::Text(Ok(contents))) => if dc.build is Some {
                    let tag = tag_from_digest(sha1_hex(contents));
                    (
                        LifecycleView { phase: Phase::Building, image: tag, ..s },
                        ActionView::BuildImage {
                            context_dir: self.folder(),
                            dockerfile: joined("devcontainer"@, dc.build->0.dockerfile@),
                            tag,
                        },
                    )
                } else {
                    finished(s, Err(unexpected()))
                },
                (Phase::ReadingDockerfile, EventView::Text(Err(why))) => finished(
                    s,
                    Err(ErrorView::IOError(why)),
                ),
                (Phase::Building, EventView::Done(Ok(()))) => self.find(s),
                (Phase::Building, EventView::Done(Err(why))) => finished(
                    s,
                    Err(ErrorView::UpError(UpErrorView::ImagePull(why))),
                ),
                (Phase::Finding, EventView::Containers(Ok(list))) => self.found(s, list),
                (Phase::Finding, EventView::Containers(Err(why))) => finished(
                    s,
                    Err(ErrorView::DockerError(why)),
                ),
                (Phase::AllocatingPort, EventView::Port(Some(port))) => self.with_port(s, port),
                (Phase::AllocatingPort, EventView::Port(None)) => finished(s, Err(no_port())),
                (Phase::ProbingName, EventView::Containers(answer)) => self.probed(s, answer),
                (Phase::Creating, EventView::Text(Ok(id))) => (
                    LifecycleView { phase: Phase::Starting, container_id: id, ..s },
                    ActionView::StartContainer { id },
                ),
                (Phase::Creating, EventView::Text(Err(why))) => finished(
                    s,
                    Err(ErrorView::DockerError(why)),
                ),
                (Phase::Starting, EventView::Done(Ok(()))) => self.run_hooks(s, first_slot(s)),
                (Phase::Starting, EventView::Done(Err(why))) => finished(
                    s,
                    Err(ErrorView::DockerError(why)),
                ),
                (Phase::Hooks, EventView::ExecFinished(Ok(code))) => match exec_outcome(code) {
                    Err(e) => finished(s, Err(e)),
                    Ok(()) => if s.hook_slot < 6 {
                        self.run_hooks(s, s.hook_slot + 1)
                    } else {
                        finished(s, Err(unexpected()))
                    },
                },
                (Phase::Hooks, EventView::ExecFinished(Err(why))) => finished(
                    s,
                    Err(ErrorView::DockerError(why)),
                ),
                (Phase::ComposeFinding, EventView::Containers(Ok(list))) => self.compose_begin(
                    LifecycleView {
                        existed: list.len() > 0,
                        was_running: list.len() > 0 && list[0].running(),
                        ..s
                    },
                ),
                (Phase::ComposeFinding, EventView::Containers(Err(why))) => finished(
                    s,
                    Err(ErrorView::DockerError(why)),
                ),
                (Phase::ComposeVersion, EventView::Text(Ok(version))) => (
                    LifecycleView { phase: Phase::ComposeWriting, ..s },
                    ActionView::WriteComposeOverride {
                        overlay: self.compose_settings_ext(dc, s.ctx, version)->0,
                    },
                ),
                (Phase::ComposeVersion, EventView::Text(Err(why))) => finished(
                    s,
                    Err(ErrorView::Other(why)),
                ),
                (Phase::ComposeWriting, EventView::OverlayWritten(Ok(path))) => (
                    LifecycleView { phase: Phase::ComposeRunning, ..s },
                    ActionView::RunCompose {
                        args: self.compose_arguments(s, path),
                        dir: self.folder(),
                    },
                ),
                (
                    Phase::ComposeWriting,
                    EventView::OverlayWritten(Err(OverlayFailureView::Yaml(why))),
                ) => finished(s, Err(ErrorView::YamlError(why))),
                (
                    Phase::ComposeWriting,
                    EventView::OverlayWritten(Err(OverlayFailureView::Io(why))),
                ) => finished(s, Err(ErrorView::IOError(why))),
                (Phase::ComposeRunning, EventView::ProcessExited(ended)) => match compose_outcome(
                    ended,
                ) {
                    Ok(()) => if s.stopping {
                        finished(s, Ok(()))
                    } else {
                        (
                            LifecycleView { phase: Phase::ComposeFindingAgain, ..s },
                            ActionView::FindContainer {
                                filters: compose_filters(s.ctx.project_name, dc.service->0@),
                            },
                        )
                    },
                    Err(why) => if s.stopping {
                        finished(s, Err(ErrorView::DownError(DownErrorView::ComposeError(why))))
                    } else {
                        finished(s, Err(ErrorView::UpError(UpErrorView::ComposeError(why))))
                    },
                },
                (Phase::ComposeFindingAgain, EventView::Containers(Ok(list))) => if list.len() > 0 {
                    self.run_hooks(
                        LifecycleView { container_id: list[0].id, ..s },
                        first_slot(s),
                    )
                } else {
                    finished(s, Err(no_compose_container()))
                },
                (Phase::ComposeFindingAgain, EventView::Containers(Err(why))) => finished(
                    s,
                    Err(ErrorView::DockerError(why)),
                ),
                (Phase::Spawning, EventView::Done(Ok(()))) => Self::spawned(s, true),
                (Phase::Spawning, EventView::Done(Err(why))) => finished(
                    s,
                    Err(ErrorView::UpError(UpErrorView::ApplicationSpawn(why))),
                ),
                (
                    Phase::Waiting,
                    EventView::Waited(WaitOutcomeView::ApplicationExited(Ok(()))),
                ) => self.take_down(s, true),
                (
                    Phase::Waiting,
                    EventView::Waited(WaitOutcomeView::ApplicationExited(Err(why))),
                ) => finished(s, Err(ErrorView::UpError(UpErrorView::ApplicationSpawn(why)))),
                (Phase::Waiting, EventView::Waited(WaitOutcomeView::ContainerExited)) => finished(
                    s,
                    Ok(()),
                ),
                (Phase::Waiting, EventView::Waited(WaitOutcomeView::Interrupted)) => self.take_down(
                    s,
                    true,
                ),
                (Phase::DownFinding, EventView::Containers(Ok(list))) => if list.len() > 0 {
                    (
                        LifecycleView { phase: Phase::Stopping, container_id: list[0].id, ..s },
                        ActionView::StopContainer { id: list[0].id },
                    )
                } else {
                    finished(s, Ok(()))
                },
                (Phase::DownFinding, EventView::Containers(Err(why))) => finished(
                    s,
                    Err(ErrorView::DockerError(why)),
                ),
                (Phase::Stopping, EventView::Done(Ok(()))) => finished(s, Ok(())),
                (Phase::Stopping, EventView::Done(Err(why))) => finished(
                    s,
                    Err(ErrorView::DockerError(why)),
                ),
                _ => finished(s, Err(unexpected())),
            }
        }
    }
}

impl Project {
    fn go_find(&self, state: Lifecycle) -> (next: (Lifecycle, Action))
        requires
            self.ready(),
        ensures
            (next.0@, next.1@) == self.find(state@),
    {
        let mut current = state;
        current.phase = Phase::Finding;
        let name = self.descriptor().get_name(&self.path);
        (current, Action::FindContainer { filters: identity_filter_list(name.as_str()) })
    }

    fn begin_compose(&self, state: Lifecycle) -> (next: (Lifecycle, Action))
        requires
            self.ready(),
            self.devcontainer->0.mode() == Mode::Compose,
        ensures
            (next.0@, next.1@) == self.compose_begin(state@),
    {
        let mut current = state;
        current.phase = Phase::ComposeVersion;
        let path = self.get_compose_sample_path(self.descriptor());
        (current, Action::ReadComposeVersion { path })
    }

    fn stops(&self, from_up: bool) -> (yes: bool)
        requires
            self.ready(),
        ensures
            yes == should_stop(&self.devcontainer->0, from_up),
    {
        if !from_up {
            return true;
        }
        let dc = self.descriptor();
        match (dc.get_mode(), dc.shutdown_action) {
            (Mode::Compose, Some(ShutdownAction::StopCompose)) => true,
            (Mode::Image, Some(ShutdownAction::StopContainer)) => true,
            (Mode::Build, Some(ShutdownAction::StopContainer)) => true,
            _ => false,
        }
    }

    fn go_down(&self, state: Lifecycle, from_up: bool) -> (next: (Lifecycle, Action))
        requires
            self.ready(),
        ensures
            (next.0@, next.1@) == self.take_down(state@, from_up),
    {
        let mut current = state;
        current.stopping = true;
        current.from_up = from_up;
        current.ctx.application_port = None;
        let dc = self.descriptor();
        if !self.stops(from_up) {
            finish(current, Ok(()))
        } else if dc.get_mode() == Mode::Compose {
            self.begin_compose(current)
        } else {
            current.phase = Phase::DownFinding;
            let name = dc.get_name(&self.path);
            (current, Action::FindContainer { filters: identity_filter_list(name.as_str()) })
        }
    }

    fn go_create(state: Lifecycle, name: Option<String>) -> (next: (Lifecycle, Action))
        requires
            state.config is Some,
        ensures
            (next.0@, next.1@) == Self::create(state@, name.deep_view()),
    {
        let mut current = state;
        current.phase = Phase::Creating;
        let config = current.config.take().unwrap();
        (current, Action::CreateContainer { name, config })
    }

    fn name_of_attempt(&self, state: &Lifecycle, n: u32) -> (name: String)
        requires
            self.path.file_name is Some,
        ensures
            name@ == self.attempt_name(state@, n as int),
    {
        match &self.path.file_name {
            Some(dir) => container_name(dir.as_str(), state.image.as_str(), n),
            None => String::new(),
        }
    }

    fn go_probe(&self, state: Lifecycle, n: u32) -> (next: (Lifecycle, Action))
        requires
            self.path.file_name is Some,
        ensures
            (next.0@, next.1@) == self.probe(state@, n as int),
    {
        let mut current = state;
        let candidate = self.name_of_attempt(&current, n);
        current.phase = Phase::ProbingName;
        current.attempt = n;
        (current, Action::ProbeName { candidate })
    }

    fn go_with_port(&self, state: Lifecycle, port: u16) -> (next: (Lifecycle, Action))
        requires
            self.ready(),
        ensures
            (next.0@, next.1@) == self.with_port(state@, port),
    {
        let mut current = state;
        current.ctx.application_port = Some(port);
        if current.existed {
            if !current.was_running {
                current.phase = Phase::Starting;
                let id = current.container_id.clone();
                (current, Action::StartContainer { id })
            } else {
                self.hooks_from(current, 4)
            }
        } else {
            match self.container_config(self.descriptor(), &current.ctx, current.image.clone()) {
                Err(e) => finish(current, Err(e)),
                Ok(config) => {
                    current.config = Some(config);
                    if self.path.file_name.is_some() {
                        self.go_probe(current, 1)
                    } else {
                        Self::go_create(current, None)
                    }
                },
            }
        }
    }

    fn on_found(&self, state: Lifecycle, list: Vec<ContainerStat>) -> (next: (Lifecycle, Action))
        requires
            self.ready(),
        ensures
            (next.0@, next.1@) == self.found(state@, list.deep_view()),
    {
        let mut current = state;
        let ghost all = list.deep_view();
        assert(list@.len() > 0 ==> all[0] == list@[0]@);
        match crate::provision::get_container_from_filters(list) {
            Some(stat) => {
                current.existed = true;
                current.was_running = stat.is_running();
                let port = get_application_port(&stat.labels);
                current.container_id = stat.id;
                match port {
                    Err(e) => finish(current, Err(e)),
                    Ok(Some(port)) => self.go_with_port(current, port),
                    Ok(None) => {
                        current.phase = Phase::AllocatingPort;
                        (current, Action::AllocatePort)
                    },
                }
            },
            None => {
                current.existed = false;
                current.was_running = false;
                current.phase = Phase::AllocatingPort;
                (current, Action::AllocatePort)
            },
        }
    }

    fn on_probed(&self, state: Lifecycle, answer: Result<Vec<ContainerStat>, String>) -> (next: (
        Lifecycle,
        Action,
    ))
        requires
            self.ready(),
        ensures
            (next.0@, next.1@) == self.probed(
                state@,
                match answer {
                    Ok(list) => Ok(list.deep_view()),
                    Err(why) => Err(why@),
                },
            ),
    {
        if state.config.is_none() || self.path.file_name.is_none() {
            return fail_unexpected(state);
        }
        let taken = match &answer {
            Ok(list) => list.len() > 0,
            Err(_) => false,
        };
        if taken {
            if state.attempt < NAME_ATTEMPTS {
                let n = state.attempt + 1;
                self.go_probe(state, n)
            } else {
                Self::go_create(state, None)
            }
        } else {
            let name = self.name_of_attempt(&state, state.attempt);
            Self::go_create(state, Some(name))
        }
    }

    fn compose_command(&self, state: &Lifecycle, overlay: String) -> (args: Vec<String>)
        requires
            self.ready(),
            self.devcontainer->0.mode() == Mode::Compose,
        ensures
            args.deep_view() == self.compose_arguments(state@, overlay@),
    {
        let dc = self.descriptor();
        if state.stopping {
            let mut extended = no_texts();
            push_text(&mut extended, String::from_str("stop"));
            assert(extended.deep_view() =~= seq!["stop"@]);
            self.build_docker_compose_cmd(dc, &state.ctx, Some(overlay), Some(extended))
        } else {
            let mut args = self.build_docker_compose_cmd(dc, &state.ctx, Some(overlay), None);
            let ghost base = args.deep_view();
            push_text(&mut args, String::from_str("up"));
            push_text(&mut args, String::from_str("-d"));
            match &dc.service {
                Some(service) => {
                    push_text(&mut args, service.clone());
                },
                None => {},
            }
            assert(args.deep_view() =~= base + seq!["up"@, "-d"@, dc.service->0@]);
            match &dc.run_services {
                Some(services) => {
                    append_texts(&mut args, services);
                },
                None => {
                    assert(args.deep_view() + Seq::<Seq<char>>::empty() =~= args.deep_view());
                },
            }
            args
        }
    }

    fn on_compose(&self, state: Lifecycle, event: Event) -> (next: (Lifecycle, Action))
        requires
            self.ready(),
            compose_phase(state.phase),
        ensures
            (next.0@, next.1@) == self.next(state@, event@),
    {
        let dc = self.descriptor();
        if dc.get_mode() != Mode::Compose {
            return fail_unexpected(state);
        }
        let mut current = state;
        match (current.phase, event) {
            (Phase::ComposeFinding, Event::Containers(Ok(list))) => {
                assert(list@.len() > 0 ==> list.deep_view()[0] == list@[0]@);
                current.existed = list.len() > 0;
                current.was_running = list.len() > 0 && list[0].is_running();
                self.begin_compose(current)
            },
            (Phase::ComposeFinding, Event::Containers(Err(why))) => finish(
                current,
                Err(Error::DockerError(why)),
            ),
            (Phase::ComposeVersion, Event::Text(Ok(version))) => {
                match self.build_docker_compose_settings_ext(dc, &current.ctx, version) {
                    Some(overlay) => {
                        current.phase = Phase::ComposeWriting;
                        (current, Action::WriteComposeOverride { overlay })
                    },
                    None => fail_unexpected(current),
                }
            },
            (Phase::ComposeVersion, Event::Text(Err(why))) => finish(
                current,
                Err(Error::Other(why)),
            ),
            (Phase::ComposeWriting, Event::OverlayWritten(Ok(path))) => {
                let args = self.compose_command(&current, path);
                current.phase = Phase::ComposeRunning;
                (current, Action::RunCompose { args, dir: self.get_devcontainer_folder() })
            },
            (Phase::ComposeWriting, Event::OverlayWritten(Err(OverlayFailure::Yaml(why)))) => finish(
                current,
                Err(Error::YamlError(why)),
            ),
            (Phase::ComposeWriting, Event::OverlayWritten(Err(OverlayFailure::Io(why)))) => finish(
                current,
                Err(Error::IOError(why)),
            ),
            (Phase::ComposeRunning, Event::ProcessExited(ended)) => {
                let outcome = match ended {
                    Ok(code) => check_process_exit(code),
                    Err(why) => Err(why),
                };
                match outcome {
                    Ok(()) => {
                        if current.stopping {
                            finish(current, Ok(()))
                        } else {
                            current.phase = Phase::ComposeFindingAgain;
                            let filters = match &dc.service {
                                Some(service) => compose_filter_list(
                                    current.ctx.project_name.as_str(),
                                    service.as_str(),
                                ),
                                None => no_texts(),
                            };
                            (current, Action::FindContainer { filters })
                        }
                    },
                    Err(why) => {
                        if current.stopping {
                            finish(current, Err(Error::DownError(DownError::ComposeError(why))))
                        } else {
                            finish(current, Err(Error::UpError(UpError::ComposeError(why))))
                        }
                    },
                }
            },
            (Phase::ComposeFindingAgain, Event::Containers(Ok(list))) => {
                assert(list@.len() > 0 ==> list.deep_view()[0] == list@[0]@);
                let from: u8 = if !current.existed {
                    0
                } else if !current.was_running {
                    2
                } else {
                    4
                };
                match crate::provision::get_container_from_filters(list) {
                    Some(stat) => {
                        current.container_id = stat.id;
                        self.hooks_from(current, from)
                    },
                    None => finish(
                        current,
                        Err(
                            Error::UpError(
                                UpError::ContainerCreate(
                                    String::from_str("Could not locate container after compose up"),
                                ),
                            ),
                        ),
                    ),
                }
            },
            (Phase::ComposeFindingAgain, Event::Containers(Err(why))) => finish(
                current,
                Err(Error::DockerError(why)),
            ),
            _ => fail_unexpected(current),
        }
    }
}

impl Project {
    /// The state in which a command begins.
    pub open spec fn initial(&self, should_wait: bool) -> LifecycleView {
        LifecycleView {
            phase: Phase::Finished,
            ctx: ContextView {
                application_port: None,
                project_name: self.devcontainer->0.project_name(&self.path),
            },
            should_wait,
            stopping: false,
            from_up: false,
            image: Seq::empty(),
            container_id: Seq::empty(),
            existed: false,
            was_running: false,
            hook_slot: 0,
            attempt: 0,
            config: None,
            application: false,
        }
    }

    /// The first request of `up`, by the mode of the descriptor: the pull
    /// of the image, the reading of the Dockerfile, or the search for the
    /// container of the compose service.
    pub open spec fn begin_up(&self, should_wait: bool) -> (LifecycleView, ActionView) {
        let dc = &self.devcontainer->0;
        let s = self.initial(should_wait);
        match dc.mode() {
            Mode::Image => {
                let image = formatted_image(dc.image->0@);
                (LifecycleView { phase: Phase::Pulling, image, ..s }, ActionView::PullImage { image })
            },
            Mode::Build => (
                LifecycleView { phase: Phase::ReadingDockerfile, ..s },
                ActionView::ReadDockerfile {
                    path: joined(self.folder(), dc.build->0.dockerfile@),
                },
            ),
            Mode::Compose => (
                LifecycleView { phase: Phase::ComposeFinding, ..s },
                ActionView::FindContainer {
                    filters: compose_filters(s.ctx.project_name, dc.service->0@),
                },
            ),
        }
    }

    fn start_state(&self, should_wait: bool) -> (state: Lifecycle)
        requires
            self.ready(),
        ensures
            state@ == self.initial(should_wait),
    {
        Lifecycle {
            phase: Phase::Finished,
            ctx: self.create_context(self.descriptor()),
            should_wait,
            stopping: false,
            from_up: false,
            image: String::new(),
            container_id: String::new(),
            existed: false,
            was_running: false,
            hook_slot: 0,
            attempt: 0,
            config: None,
            application: false,
        }
    }

    /// Begins to bring the environment up. Without a descriptor there is
    /// nothing to bring up. The outcome is the state of the command and its
    /// first request; `step` leads on from there.
    pub fn up(&self, should_wait: bool) -> (begun: Result<(Lifecycle, Action), Error>)
        requires
            self.devcontainer is Some ==> self.ready(),
        ensures
            match begun {
                Ok(first) => self.devcontainer is Some && (first.0@, first.1@) == self.begin_up(
                    should_wait,
                ),
                Err(e) => self.devcontainer is None && e@ == ErrorView::NoDevContainer,
            },
    {
        if self.devcontainer.is_none() {
            return Err(Error::NoDevContainer);
        }
        let dc = self.descriptor();
        let mut state = self.start_state(should_wait);
        match dc.get_mode() {
            Mode::Image => {
                let image = match &dc.image {
                    Some(image) => self.docker_format_image(image.clone()),
                    None => String::new(),
                };
                state.phase = Phase::Pulling;
                state.image = image.clone();
                Ok((state, Action::PullImage { image }))
            },
            Mode::Build => {
                let folder = self.get_devcontainer_folder();
                let path = match &dc.build {
                    Some(build) => join_path(folder.as_str(), build.dockerfile.as_str()),
                    None => folder,
                };
                state.phase = Phase::ReadingDockerfile;
                Ok((state, Action::ReadDockerfile { path }))
            },
            Mode::Compose => {
                let filters = match &dc.service {
                    Some(service) => compose_filter_list(
                        state.ctx.project_name.as_str(),
                        service.as_str(),
                    ),
                    None => no_texts(),
                };
                state.phase = Phase::ComposeFinding;
                Ok((state, Action::FindContainer { filters }))
            },
        }
    }

    /// Begins to take the environment down. After an `up` (`from_up`) the
    /// descriptor's shutdown action decides whether anything is stopped; a
    /// `down` that the user asked for always stops.
    pub fn down(&self, from_up: bool) -> (begun: Result<(Lifecycle, Action), Error>)
        requires
            self.devcontainer is Some ==> self.ready(),
        ensures
            match begun {
                Ok(first) => self.devcontainer is Some && (first.0@, first.1@) == self.take_down(
                    self.initial(false),
                    from_up,
                ),
                Err(e) => self.devcontainer is None && e@ == ErrorView::NoDevContainer,
            },
    {
        if self.devcontainer.is_none() {
            return Err(Error::NoDevContainer);
        }
        let state = self.start_state(false);
        Ok(self.go_down(state, from_up))
    }

    fn on_image(&self, state: Lifecycle, event: Event) -> (next: (Lifecycle, Action))
        requires
            self.ready(),
            !compose_phase(state.phase),
        ensures
            (next.0@, next.1@) == self.next(state@, event@),
    {
        let dc = self.descriptor();
        let mut current = state;
        match (current.phase, event) {
            (Phase::Pulling, Event::Done(Ok(()))) => self.go_find(current),
            (Phase::Pulling, Event::Done(Err(why))) => finish(
                current,
                Err(Error::UpError(UpError::ImagePull(why))),
            ),
            (Phase::ReadingDockerfile, Event::Text(Ok(contents))) => {
                match &dc.build {
                    Some(build) => {
                        let tag = docker_build_image_tag(contents.as_str());
                        current.phase = Phase::Building;
                        current.image = tag.clone();
                        (
                            current,
                            Action::BuildImage {
                                context_dir: self.get_devcontainer_folder(),
                                dockerfile: join_path("devcontainer", build.dockerfile.as_str()),
                                tag,
                            },
                        )
                    },
                    None => fail_unexpected(current),
                }
            },
            (Phase::ReadingDockerfile, Event::Text(Err(why))) => finish(
                current,
                Err(Error::IOError(why)),
            ),
            (Phase::Building, Event::Done(Ok(()))) => self.go_find(current),
            (Phase::Building, Event::Done(Err(why))) => finish(
                current,
                Err(Error::UpError(UpError::ImagePull(why))),
            ),
            (Phase::Finding, Event::Containers(Ok(list))) => self.on_found(current, list),
            (Phase::Finding, Event::Containers(Err(why))) => finish(
                current,
                Err(Error::DockerError(why)),
            ),
            (Phase::AllocatingPort, Event::Port(Some(port))) => self.go_with_port(current, port),
            (Phase::AllocatingPort, Event::Port(None)) => finish(
                current,
                Err(
                    Error::Other(
                        String::from_str("Could select an available port for application"),
                    ),
                ),
            ),
            (Phase::ProbingName, Event::Containers(answer)) => self.on_probed(current, answer),
            (Phase::Creating, Event::Text(Ok(id))) => {
                current.phase = Phase::Starting;
                current.container_id = id.clone();
                (current, Action::StartContainer { id })
            },
            (Phase::Creating, Event::Text(Err(why))) => finish(
                current,
                Err(Error::DockerError(why)),
            ),
            (Phase::Starting, Event::Done(Ok(()))) => {
                let from: u8 = if !current.existed {
                    0
                } else if !current.was_running {
                    2
                } else {
                    4
                };
                self.hooks_from(current, from)
            },
            (Phase::Starting, Event::Done(Err(why))) => finish(
                current,
                Err(Error::DockerError(why)),
            ),
            (Phase::Hooks, Event::ExecFinished(Ok(code))) => {
                match check_exit_code(code) {
                    Err(e) => finish(current, Err(e)),
                    Ok(()) => {
                        if current.hook_slot < 6 {
                            let from = current.hook_slot + 1;
                            self.hooks_from(current, from)
                        } else {
                            fail_unexpected(current)
                        }
                    },
                }
            },
            (Phase::Hooks, Event::ExecFinished(Err(why))) => finish(
                current,
                Err(Error::DockerError(why)),
            ),
            (Phase::Spawning, Event::Done(Ok(()))) => Self::after_spawn(current, true),
            (Phase::Spawning, Event::Done(Err(why))) => finish(
                current,
                Err(Error::UpError(UpError::ApplicationSpawn(why))),
            ),
            (Phase::Waiting, Event::Waited(WaitOutcome::ApplicationExited(Ok(())))) => self.go_down(
                current,
                true,
            ),
            (Phase::Waiting, Event::Waited(WaitOutcome::ApplicationExited(Err(why)))) => finish(
                current,
                Err(Error::UpError(UpError::ApplicationSpawn(why))),
            ),
            (Phase::Waiting, Event::Waited(WaitOutcome::ContainerExited)) => finish(
                current,
                Ok(()),
            ),
            (Phase::Waiting, Event::Waited(WaitOutcome::Interrupted)) => self.go_down(
                current,
                true,
            ),
            (Phase::DownFinding, Event::Containers(Ok(list))) => {
                assert(list@.len() > 0 ==> list.deep_view()[0] == list@[0]@);
                match crate::provision::get_container_from_filters(list) {
                    Some(stat) => {
                        current.phase = Phase::Stopping;
                        current.container_id = stat.id.clone();
                        (current, Action::StopContainer { id: stat.id })
                    },
                    None => finish(current, Ok(())),
                }
            },
            (Phase::DownFinding, Event::Containers(Err(why))) => finish(
                current,
                Err(Error::DockerError(why)),
            ),
            (Phase::Stopping, Event::Done(Ok(()))) => finish(current, Ok(())),
            (Phase::Stopping, Event::Done(Err(why))) => finish(
                current,
                Err(Error::DockerError(why)),
            ),
            _ => fail_unexpected(current),
        }
    }

    /// Takes the command one step on: from its state and what the last
    /// request came to, to its next state and its next request. A command
    /// that has ended, or an event that was not asked for, ends in a failure.
    pub fn step(&self, state: Lifecycle, event: Event) -> (next: (Lifecycle, Action))
        requires
            self.ready(),
        ensures
            (next.0@, next.1@) == self.next(state@, event@),
    {
        match state.phase {
            Phase::ComposeFinding
            | Phase::ComposeVersion
            | Phase::ComposeWriting
            | Phase::ComposeRunning
            | Phase::ComposeFindingAgain => self.on_compose(state, event),
            _ => self.on_image(state, event),
        }
    }
}

} // verus!
