//! What holds of every run of the launcher, whatever the runtime answers:
//! a container that runs is not made again, the shutdown policy is kept, and
//! the hooks run in their order.

use vstd::prelude::*;
use crate::container::ContainerStatView;
use crate::devcontainer::{Mode, ShutdownAction};
use crate::errors::{DownErrorView, ErrorView, UpErrorView};
use crate::lifecycle::{should_stop, ActionView, EventView, LifecycleView, Phase};
use crate::project::{CommandHook, Project};
use crate::provision::{compose_filters, identity_filters, NAME_ATTEMPTS};

verus! {

impl Project {
    /// The requests of a command that starts in the state `s` and is given
    /// the events of `events`, one after the other.
    pub open spec fn requests(&self, s: LifecycleView, events: Seq<EventView>) -> Seq<ActionView>
        decreases events.len(),
    {
        if events.len() == 0 {
            Seq::empty()
        } else {
            let step = self.next(s, events[0]);
            seq![step.1] + self.requests(step.0, events.skip(1))
        }
    }

    /// The slot that the hooks reach from `from` lies between `from` and 6.
    pub proof fn lemma_next_slot(&self, from: int)
        requires
            0 <= from <= 6,
        ensures
            from <= self.next_slot(from) <= 6,
            self.next_slot(from) < 6 ==> self.slot_command(self.next_slot(from)) is Some,
        decreases 6 - from,
    {
        if from < 6 && self.slot_command(from) is None {
            self.lemma_next_slot(from + 1);
        }
    }
}

/// Whether a request makes or starts a container, or runs one of the hooks
/// that belong to making and starting it.
pub open spec fn remakes(a: ActionView) -> bool {
    ||| a is CreateContainer
    ||| a is StartContainer
    ||| a is PullImage
    ||| a is BuildImage
    ||| (a matches ActionView::RunHook { hook, .. } && hook != CommandHook::PostAttach)
}

/// Whether a request stops anything: a container, or a compose stack.
pub open spec fn stops(a: ActionView) -> bool {
    a is StopContainer || a is RunCompose
}

/// The states of a command that found its container running: all that is
/// left to it is the attach hook, the application, the wait and the way
/// down.
pub open spec fn reusing(s: LifecycleView) -> bool {
    &&& s.existed
    &&& s.was_running
    &&& {
        ||| s.phase == Phase::AllocatingPort
        ||| (s.phase == Phase::Hooks && 4 <= s.hook_slot)
        ||| s.phase == Phase::Spawning
        ||| s.phase == Phase::Waiting
        ||| s.phase == Phase::DownFinding
        ||| s.phase == Phase::Stopping
        ||| s.phase == Phase::Finished
    }
}

impl Project {
    proof fn lemma_reusing_step(&self, s: LifecycleView, e: EventView)
        requires
            self.ready(),
            self.devcontainer->0.mode() != Mode::Compose,
            reusing(s),
        ensures
            reusing(self.next(s, e).0),
            !remakes(self.next(s, e).1),
    {
        self.lemma_next_slot(4);
        self.lemma_next_slot(5);
        self.lemma_next_slot(6);
        if s.phase == Phase::Hooks && s.hook_slot < 6 {
            self.lemma_next_slot(s.hook_slot + 1);
        }
    }

    proof fn lemma_reusing_run(&self, s: LifecycleView, events: Seq<EventView>)
        requires
            self.ready(),
            self.devcontainer->0.mode() != Mode::Compose,
            reusing(s),
        ensures
            forall|i: int|
                0 <= i < self.requests(s, events).len() ==> !remakes(
                    #[trigger] self.requests(s, events)[i],
                ),
        decreases events.len(),
    {
        if events.len() > 0 {
            let step = self.next(s, events[0]);
            let rest = self.requests(step.0, events.skip(1));
            self.lemma_reusing_step(s, events[0]);
            self.lemma_reusing_run(step.0, events.skip(1));
            assert forall|i: int| 0 <= i < self.requests(s, events).len() implies !remakes(
                #[trigger] self.requests(s, events)[i],
            ) by {
                if i > 0 {
                    assert(self.requests(s, events)[i] == rest[i - 1]);
                }
            }
        }
    }

    /// A second `up` does not make the container again. Once the search
    /// for the project's container finds one that runs, nothing is pulled,
    /// built, created or started any more, and of the hooks only the attach
    /// hook runs, whatever the runtime answers from then on.
    pub proof fn lemma_running_container_is_reused(
        &self,
        s: LifecycleView,
        found: Seq<ContainerStatView>,
        events: Seq<EventView>,
    )
        requires
            self.ready(),
            self.devcontainer->0.mode() != Mode::Compose,
            s.phase == Phase::Finding,
            found.len() > 0,
            found[0].running(),
        ensures
            forall|i: int|
                0 <= i < self.requests(s, seq![EventView::Containers(Ok(found))] + events).len()
                    ==> !remakes(
                    #[trigger] self.requests(
                        s,
                        seq![EventView::Containers(Ok(found))] + events,
                    )[i],
                ),
    {
        let first = EventView::Containers(Ok(found));
        let all = seq![first] + events;
        let step = self.next(s, first);
        self.lemma_next_slot(4);
        assert(reusing(step.0));
        assert(!remakes(step.1));
        assert(all[0] == first);
        assert(all.skip(1) =~= events);
        self.lemma_reusing_run(step.0, events);
        let rest = self.requests(step.0, events);
        assert forall|i: int| 0 <= i < self.requests(s, all).len() implies !remakes(
            #[trigger] self.requests(s, all)[i],
        ) by {
            if i > 0 {
                assert(self.requests(s, all)[i] == rest[i - 1]);
            }
        }
    }

    proof fn lemma_finished_run(&self, s: LifecycleView, events: Seq<EventView>)
        requires
            s.phase == Phase::Finished,
        ensures
            forall|i: int|
                0 <= i < self.requests(s, events).len() ==> (#[trigger] self.requests(
                    s,
                    events,
                )[i]) is Finish,
        decreases events.len(),
    {
        if events.len() > 0 {
            let step = self.next(s, events[0]);
            let rest = self.requests(step.0, events.skip(1));
            self.lemma_finished_run(step.0, events.skip(1));
            assert forall|i: int| 0 <= i < self.requests(s, events).len() implies (
            #[trigger] self.requests(s, events)[i]) is Finish by {
                if i > 0 {
                    assert(self.requests(s, events)[i] == rest[i - 1]);
                }
            }
        }
    }

    /// With the shutdown action `none`, or none at all, going down after an
    /// `up` stops nothing: the command ends at once, and no request to stop
    /// a container or a compose stack ever follows.
    pub proof fn lemma_no_shutdown_action_stops_nothing(
        &self,
        s: LifecycleView,
        events: Seq<EventView>,
    )
        requires
            self.ready(),
            self.devcontainer->0.shutdown_action is None || self.devcontainer->0.shutdown_action
                == Some(ShutdownAction::Nothing),
        ensures
            self.take_down(s, true).1 == ActionView::Finish(Ok(())),
            forall|i: int|
                0 <= i < self.requests(self.take_down(s, true).0, events).len() ==> !stops(
                    #[trigger] self.requests(self.take_down(s, true).0, events)[i],
                ),
    {
        self.lemma_finished_run(self.take_down(s, true).0, events);
    }

    /// A `down` that the user asked for stops the environment whatever the
    /// shutdown action: in compose mode it goes for the compose `stop`, and
    /// else it looks for the container and stops the one it finds.
    pub proof fn lemma_manual_down_always_stops(
        &self,
        s: LifecycleView,
        found: Seq<ContainerStatView>,
        overlay: Seq<char>,
    )
        requires
            self.ready(),
            found.len() > 0,
        ensures
            should_stop(&self.devcontainer->0, false),
            self.devcontainer->0.mode() != Mode::Compose ==> {
                let begun = self.take_down(s, false);
                &&& begun.1 == ActionView::FindContainer {
                    filters: identity_filters(
                        self.devcontainer->0.project_name(&self.path),
                    ),
                }
                &&& self.next(begun.0, EventView::Containers(Ok(found))).1
                    == ActionView::StopContainer { id: found[0].id }
            },
            self.devcontainer->0.mode() == Mode::Compose ==> {
                let begun = self.take_down(s, false);
                let written = LifecycleView { phase: Phase::ComposeWriting, ..begun.0 };
                &&& begun.1 is ReadComposeVersion
                &&& self.next(written, EventView::OverlayWritten(Ok(overlay))).1
                    == ActionView::RunCompose {
                    args: Self::docker_compose_cmd(
                        &self.devcontainer->0,
                        begun.0.ctx,
                        Some(overlay),
                        Some(seq!["stop"@]),
                    ),
                    dir: self.folder(),
                }
            },
    {
    }
}

impl Project {
    /// The exit code of the compose command decides. With the code 0 a
    /// `stop` ends the command in success and an `up` goes on to look for the
    /// container; with any other code, or none, the command ends in a compose
    /// failure: that of going down where the stack was being stopped, and
    /// that of coming up where it was not.
    pub proof fn lemma_compose_exit_code_decides(&self, s: LifecycleView, code: Option<i32>)
        requires
            self.ready(),
            self.devcontainer->0.mode() == Mode::Compose,
            s.phase == Phase::ComposeRunning,
        ensures
            code == Some(0i32) && s.stopping ==> self.next(s, EventView::ProcessExited(Ok(code))).1
                == ActionView::Finish(Ok(())),
            code == Some(0i32) && !s.stopping ==> self.next(
                s,
                EventView::ProcessExited(Ok(code)),
            ).1 == (ActionView::FindContainer {
                filters: compose_filters(s.ctx.project_name, self.devcontainer->0.service->0@),
            }),
            code != Some(0i32) && s.stopping ==> self.next(s, EventView::ProcessExited(Ok(code))).1
                matches ActionView::Finish(Err(ErrorView::DownError(DownErrorView::ComposeError(_)))),
            code != Some(0i32) && !s.stopping ==> self.next(
                s,
                EventView::ProcessExited(Ok(code)),
            ).1 matches ActionView::Finish(Err(ErrorView::UpError(UpErrorView::ComposeError(_)))),
    {
    }

    /// Twenty names are tried for a new container and no more. While the
    /// name of an attempt before the twentieth is taken, the next name is
    /// asked after; once the twentieth is taken, the container is created
    /// without a name, and nothing else is asked first.
    pub proof fn lemma_names_are_tried_twenty_times(
        &self,
        s: LifecycleView,
        taken: Seq<ContainerStatView>,
    )
        requires
            s.phase == Phase::ProbingName,
            s.config is Some,
            self.path.file_name is Some,
            taken.len() > 0,
            1 <= s.attempt <= NAME_ATTEMPTS,
        ensures
            NAME_ATTEMPTS == 20,
            s.attempt < 20 ==> self.next(s, EventView::Containers(Ok(taken))).1
                == (ActionView::ProbeName { candidate: self.attempt_name(s, s.attempt + 1) }),
            s.attempt == 20 ==> self.next(s, EventView::Containers(Ok(taken))).1
                == (ActionView::CreateContainer { name: None, config: s.config->0 }),
    {
    }
}

/// The place of a hook's command in the order of the hooks: create, start,
/// attach, and for each the descriptor's command before the settings'. A
/// request that runs no hook has the place -1.
pub open spec fn hook_rank(a: ActionView) -> int {
    match a {
        ActionView::RunHook { hook, user, .. } => {
            let base: int = match hook {
                CommandHook::PostCreate => 0,
                CommandHook::PostStart => 2,
                CommandHook::PostAttach => 4,
            };
            if user {
                base + 1
            } else {
                base
            }
        },
        _ => -1,
    }
}

/// The states from which no hook up to the place `k` runs any more.
pub open spec fn past(s: LifecycleView, k: int) -> bool {
    ||| (s.phase == Phase::Hooks && s.hook_slot >= k)
    ||| s.phase == Phase::Spawning
    ||| s.phase == Phase::Waiting
    ||| s.phase == Phase::DownFinding
    ||| s.phase == Phase::Stopping
    ||| s.phase == Phase::Finished
    ||| (s.stopping && (s.phase == Phase::ComposeVersion || s.phase == Phase::ComposeWriting
        || s.phase == Phase::ComposeRunning))
}

/// Whether the hooks among `requests` run in ascending order, each after
/// the place `k`.
pub open spec fn ascending(requests: Seq<ActionView>, k: int) -> bool {
    &&& forall|i: int|
        0 <= i < requests.len() && (#[trigger] requests[i]) is RunHook ==> hook_rank(requests[i])
            > k
    &&& forall|i: int, j: int|
        0 <= i < j < requests.len() && (#[trigger] requests[i]) is RunHook && (
        #[trigger] requests[j]) is RunHook ==> hook_rank(requests[i]) < hook_rank(requests[j])
}

impl Project {
    /// What the hooks from a slot on lead to: a hook at that slot or a
    /// later one, or the time after the hooks.
    pub open spec fn hooks_shape(step: (LifecycleView, ActionView), from: int) -> bool {
        if step.1 is RunHook {
            &&& step.0.phase == Phase::Hooks
            &&& step.0.hook_slot == hook_rank(step.1)
            &&& from <= hook_rank(step.1) < 6
        } else {
            step.0.phase == Phase::Spawning || step.0.phase == Phase::Waiting || step.0.phase
                == Phase::Finished
        }
    }

    proof fn lemma_run_hooks(&self)
        ensures
            forall|s: LifecycleView, from: int|
                0 <= from <= 6 ==> Self::hooks_shape(#[trigger] self.run_hooks(s, from), from),
    {
        assert forall|s: LifecycleView, from: int| 0 <= from <= 6 implies Self::hooks_shape(
            #[trigger] self.run_hooks(s, from),
            from,
        ) by {
            self.lemma_next_slot(from);
        }
    }

    #[verifier::rlimit(60)]
    #[verifier::spinoff_prover]
    proof fn lemma_hook_emitted(&self, s: LifecycleView, e: EventView)
        ensures
            self.next(s, e).1 is RunHook ==> {
                &&& self.next(s, e).0.phase == Phase::Hooks
                &&& self.next(s, e).0.hook_slot == hook_rank(self.next(s, e).1)
            },
    {
        self.lemma_run_hooks();
    }

    #[verifier::rlimit(60)]
    #[verifier::spinoff_prover]
    proof fn lemma_hook_later(&self, s: LifecycleView, e: EventView, k: int)
        requires
            0 <= k,
            past(s, k),
        ensures
            past(self.next(s, e).0, k),
            self.next(s, e).1 is RunHook ==> hook_rank(self.next(s, e).1) > k,
    {
        self.lemma_run_hooks();
    }

    proof fn lemma_hooks_after(&self, s: LifecycleView, events: Seq<EventView>, k: int)
        requires
            0 <= k,
            past(s, k),
        ensures
            ascending(self.requests(s, events), k),
        decreases events.len(),
    {
        if events.len() > 0 {
            let step = self.next(s, events[0]);
            let rest = self.requests(step.0, events.skip(1));
            let all = self.requests(s, events);
            self.lemma_hook_emitted(s, events[0]);
            self.lemma_hook_later(s, events[0], k);
            self.lemma_hooks_after(step.0, events.skip(1), k);
            if step.1 is RunHook {
                let r = hook_rank(step.1);
                assert(past(step.0, r));
                self.lemma_hooks_after(step.0, events.skip(1), r);
            }
            assert forall|i: int| 0 <= i < all.len() && (#[trigger] all[i]) is RunHook implies hook_rank(
                all[i],
            ) > k by {
                if i > 0 {
                    assert(all[i] == rest[i - 1]);
                }
            }
            assert forall|i: int, j: int|
                0 <= i < j < all.len() && (#[trigger] all[i]) is RunHook && (
                #[trigger] all[j]) is RunHook implies hook_rank(all[i]) < hook_rank(all[j]) by {
                assert(all[j] == rest[j - 1]);
                if i > 0 {
                    assert(all[i] == rest[i - 1]);
                }
            }
        }
    }

    /// The hooks run in their order and none runs twice. Of the requests
    /// of a command, whatever its state and whatever the runtime answers,
    /// those that run a hook do so in the order create, start, attach, and
    /// for each hook the descriptor's command before the settings'.
    pub proof fn lemma_hooks_run_in_order(&self, s: LifecycleView, events: Seq<EventView>)
        ensures
            forall|i: int, j: int|
                0 <= i < j < self.requests(s, events).len() && (#[trigger] self.requests(
                    s,
                    events,
                )[i]) is RunHook && (#[trigger] self.requests(s, events)[j]) is RunHook
                    ==> hook_rank(self.requests(s, events)[i]) < hook_rank(
                    self.requests(s, events)[j],
                ),
        decreases events.len(),
    {
        if events.len() > 0 {
            let step = self.next(s, events[0]);
            let rest = self.requests(step.0, events.skip(1));
            let all = self.requests(s, events);
            self.lemma_hook_emitted(s, events[0]);
            self.lemma_hooks_run_in_order(step.0, events.skip(1));
            if step.1 is RunHook {
                let r = hook_rank(step.1);
                assert(past(step.0, r));
                self.lemma_hooks_after(step.0, events.skip(1), r);
            }
            assert forall|i: int, j: int|
                0 <= i < j < all.len() && (#[trigger] all[i]) is RunHook && (
                #[trigger] all[j]) is RunHook implies hook_rank(all[i]) < hook_rank(all[j]) by {
                assert(all[j] == rest[j - 1]);
                if i > 0 {
                    assert(all[i] == rest[i - 1]);
                }
            }
        }
    }
}

} // verus!
