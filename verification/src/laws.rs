//! What holds of whole spawn calls, and of calls one after another.
//!
//! A spawn call is modelled as the host carries it out: it runs the
//! preflight, probing where that asks for it, takes the guard, hands the
//! request to the supervisor and answers each action from its surroundings
//! until the supervisor finishes. The laws below are proved of that model.

use crate::command::located_executable;
use crate::config::ExecutionMode;
use crate::error::{ExitReportView, SidecarErrorView};
use crate::paths::log_file_of;
use crate::preflight::{disabled_by, preflight_for, PreflightView};
use crate::status::snapshot_of;
use crate::supervisor::{ActionView, EventView, Stage, SupervisorView};
use vstd::prelude::*;

verus! {

/// What is fixed when the supervisor is built stays fixed: no event and no
/// stop changes the mode, the configuration or the project root.
pub proof fn lemma_setup_is_fixed<C>(supervisor: SupervisorView<C>, event: EventView<C>)
    ensures
        supervisor.next(event).0 == supervisor.at(supervisor.next(event).0.stage),
        supervisor.stopped().0 == supervisor.at(Stage::Absent),
{
    assert(supervisor.at(supervisor.stage) == supervisor);
}

/// A held child is displaced by no event, and while it is held no launch
/// is asked for: only a stop takes it out.
pub proof fn lemma_held_child_stays<C>(supervisor: SupervisorView<C>, event: EventView<C>)
    requires
        supervisor.stage is Running,
    ensures
        supervisor.next(event).0 == supervisor,
        !(supervisor.next(event).1 is Launch),
{
}

/// There is one way in: a child is taken in only when the settle interval
/// ends with the process still there, and a launch is asked for only while
/// nothing is held.
pub proof fn lemma_one_way_in<C>(supervisor: SupervisorView<C>, event: EventView<C>)
    ensures
        supervisor.next(event).1 is Launch ==> supervisor.stage.child() is None,
        supervisor.next(event).0.stage.child() != supervisor.stage.child() ==> {
            &&& supervisor.stage is AwaitingSettle
            &&& event is StillRunning
            &&& supervisor.next(event).0.stage == Stage::Running(event->StillRunning_child)
        },
{
}

/// How opening the sinks goes.
pub enum SinksAnswer {
    Ready,
    DirectoryFailed { cause: Seq<char> },
    LogFailed { cause: Seq<char> },
}

/// What is found after the settle interval.
pub enum SettleAnswer<C> {
    Exited { status: ExitReportView },
    StillRunning { child: C },
}

/// Everything the world around the supervisor answers during one spawn
/// call, whether or not the call comes to ask for it.
pub struct Surroundings<C> {
    /// The disable flag as found in the environment.
    pub flag: Option<Seq<char>>,
    /// Whether a backend answers the liveness probe.
    pub reachable: bool,
    /// Whether the guard around the supervisor can be taken. It cannot
    /// once a holder has failed while holding it.
    pub guard_usable: bool,
    pub sinks: SinksAnswer,
    /// The directory of the host application, if it can be told.
    pub directory: Option<Seq<char>>,
    /// For each candidate name, whether such a file exists there.
    pub present: Seq<bool>,
    /// Why the operating system starts no process, if it starts none.
    pub launch_failure: Option<Seq<char>>,
    pub settle: SettleAnswer<C>,
}

impl<C> Surroundings<C> {
    /// The event with which the host answers an action; none where the
    /// action asks for nothing.
    pub open spec fn answer(self, action: ActionView<C>) -> Option<EventView<C>> {
        match action {
            ActionView::OpenSinks { .. } => Some(
                match self.sinks {
                    SinksAnswer::Ready => EventView::SinksReady,
                    SinksAnswer::DirectoryFailed { cause } => EventView::DirectoryFailed { cause },
                    SinksAnswer::LogFailed { cause } => EventView::LogFailed { cause },
                },
            ),
            ActionView::LocateExecutable { .. } => Some(
                EventView::CandidatesChecked { directory: self.directory, present: self.present },
            ),
            ActionView::Launch { .. } => Some(
                match self.launch_failure {
                    None => EventView::Launched,
                    Some(cause) => EventView::LaunchFailed { cause },
                },
            ),
            ActionView::Settle { .. } => Some(
                match self.settle {
                    SettleAnswer::Exited { status } => EventView::Exited { status },
                    SettleAnswer::StillRunning { child } => EventView::StillRunning { child },
                },
            ),
            ActionView::Finish { .. } => None,
            ActionView::Refused { .. } => None,
        }
    }

    /// One round of the conversation: the host answers the action, and the
    /// supervisor takes the answer. Where the action asks for nothing, the
    /// conversation stands still.
    pub open spec fn round(self, at: (SupervisorView<C>, ActionView<C>)) -> (
        SupervisorView<C>,
        ActionView<C>,
    ) {
        match self.answer(at.1) {
            Some(event) => at.0.next(event),
            None => at,
        }
    }

    /// Whether carrying out the action starts a process.
    pub open spec fn starts(self, action: ActionView<C>) -> nat {
        if action is Launch && self.launch_failure is None {
            1
        } else {
            0
        }
    }
}

/// How a spawn call ended.
pub struct Call<C> {
    /// The supervisor after the call.
    pub after: SupervisorView<C>,
    /// What the call reported.
    pub outcome: Result<bool, SidecarErrorView>,
    /// How many processes the call started.
    pub started: nat,
}

/// A call in which no spawn is performed.
pub open spec fn untouched<C>(supervisor: SupervisorView<C>) -> Call<C> {
    Call { after: supervisor, outcome: Ok(false), started: 0 }
}

/// Where the preflight ends, once the host has answered what it was
/// asked: the probe, where the flag leaves the sidecar on, and the guard,
/// where no backend answered.
pub open spec fn preflight_end<C>(
    supervisor: SupervisorView<C>,
    world: Surroundings<C>,
) -> PreflightView {
    let first = preflight_for(supervisor.config, world.flag, None, None);
    let second = if first is Probe {
        preflight_for(supervisor.config, world.flag, Some(world.reachable), None)
    } else {
        first
    };
    if second is TakeGuard {
        preflight_for(
            supervisor.config,
            world.flag,
            Some(world.reachable),
            Some(world.guard_usable),
        )
    } else {
        second
    }
}

/// Where the conversation stands three rounds after the request. No call
/// takes more: sinks or candidates, launch, settle.
pub open spec fn closing<C>(supervisor: SupervisorView<C>, world: Surroundings<C>) -> (
    SupervisorView<C>,
    ActionView<C>,
) {
    world.round(world.round(world.round(supervisor.next(EventView::SpawnRequested))))
}

/// A spawn call, as the host carries it out in given surroundings.
pub open spec fn spawn_call<C>(supervisor: SupervisorView<C>, world: Surroundings<C>) -> Call<C> {
    match preflight_end(supervisor, world) {
        PreflightView::Proceed => {
            let first = supervisor.next(EventView::SpawnRequested);
            let second = world.round(first);
            let third = world.round(second);
            Call {
                after: closing(supervisor, world).0,
                outcome: closing(supervisor, world).1->Finish_outcome,
                started: world.starts(first.1) + world.starts(second.1) + world.starts(third.1),
            }
        },
        PreflightView::Fail { error } => Call {
            after: supervisor,
            outcome: Err(error),
            started: 0,
        },
        _ => untouched(supervisor),
    }
}

/// What a launch comes to, once there is a command: the operating system
/// may refuse it, the process may be gone after the settle interval, or it
/// is kept.
pub open spec fn launch_described<C>(
    supervisor: SupervisorView<C>,
    world: Surroundings<C>,
) -> Call<C> {
    match world.launch_failure {
        Some(cause) => Call {
            after: supervisor.at(Stage::Absent),
            outcome: Err(SidecarErrorView::SpawnFailed { cause }),
            started: 0,
        },
        None => match world.settle {
            SettleAnswer::Exited { status } => Call {
                after: supervisor.at(Stage::Absent),
                outcome: Err(SidecarErrorView::SidecarExitedEarly { status }),
                started: 1,
            },
            SettleAnswer::StillRunning { child } => Call {
                after: supervisor.at(Stage::Running(child)),
                outcome: Ok(true),
                started: 1,
            },
        },
    }
}

/// A spawn call, told in one piece.
///
/// No spawn is performed where the sidecar is switched off or a backend
/// already answers. Otherwise the guard is taken, and the call fails where
/// it cannot be. Under the guard no spawn is performed where the
/// supervisor holds a child or is already starting one. Otherwise the
/// sinks are settled, then the command; the first failure ends the call
/// with its error and nothing held.
pub open spec fn spawn_described<C>(
    supervisor: SupervisorView<C>,
    world: Surroundings<C>,
) -> Call<C> {
    if disabled_by(world.flag) || world.reachable {
        untouched(supervisor)
    } else if !world.guard_usable {
        Call {
            after: supervisor,
            outcome: Err(SidecarErrorView::GuardUnavailable),
            started: 0,
        }
    } else if !(supervisor.stage is Absent) {
        untouched(supervisor)
    } else {
        match supervisor.mode {
            ExecutionMode::Development => match world.sinks {
                SinksAnswer::DirectoryFailed { cause } => Call {
                    after: supervisor,
                    outcome: Err(
                        SidecarErrorView::DirectoryCreateFailed {
                            path: supervisor.cache_dir(),
                            cause,
                        },
                    ),
                    started: 0,
                },
                SinksAnswer::LogFailed { cause } => Call {
                    after: supervisor,
                    outcome: Err(
                        SidecarErrorView::LogOpenFailed {
                            path: log_file_of(supervisor.cache_dir()),
                            cause,
                        },
                    ),
                    started: 0,
                },
                SinksAnswer::Ready => launch_described(supervisor, world),
            },
            ExecutionMode::Production => match located_executable(world.directory, world.present) {
                None => Call {
                    after: supervisor,
                    outcome: Err(SidecarErrorView::ExecutableNotFound),
                    started: 0,
                },
                Some(_) => launch_described(supervisor, world),
            },
        }
    }
}

/// The conversation between host and supervisor comes to what a spawn call
/// is described to do, in every state and in all surroundings; the
/// preflight ends in a decision that asks for nothing more, and within
/// three rounds the supervisor finishes the call.
pub proof fn lemma_spawn_call_as_described<C>(supervisor: SupervisorView<C>, world: Surroundings<C>)
    ensures
        spawn_call(supervisor, world) == spawn_described(supervisor, world),
        !(preflight_end(supervisor, world) is Probe),
        !(preflight_end(supervisor, world) is TakeGuard),
        closing(supervisor, world).1 is Finish,
{
    if !(disabled_by(world.flag) || world.reachable) && supervisor.stage is Absent {
        assert(supervisor.at(Stage::Absent) == supervisor);
    }
}

/// While a child is held, or a spawn call is under way, a spawn call that
/// can take the guard, or needs none, starts nothing, changes nothing and
/// reports that no spawn was performed.
pub proof fn lemma_spawn_while_held<C>(supervisor: SupervisorView<C>, world: Surroundings<C>)
    requires
        !(supervisor.stage is Absent),
        !(preflight_end(supervisor, world) is Fail),
    ensures
        spawn_call(supervisor, world) == untouched(supervisor),
{
    lemma_spawn_call_as_described(supervisor, world);
}

/// With the sidecar switched off, a spawn call starts nothing, changes
/// nothing and reports that no spawn was performed, whether or not a
/// backend answers and whatever the supervisor holds.
pub proof fn lemma_opt_out_respected<C>(supervisor: SupervisorView<C>, world: Surroundings<C>)
    requires
        disabled_by(world.flag),
    ensures
        spawn_call(supervisor, world) == untouched(supervisor),
{
    lemma_spawn_call_as_described(supervisor, world);
}

/// Where a backend already answers the probe, a spawn call starts nothing,
/// changes nothing and reports that no spawn was performed.
pub proof fn lemma_reachable_short_circuit<C>(supervisor: SupervisorView<C>, world: Surroundings<C>)
    requires
        world.reachable,
    ensures
        spawn_call(supervisor, world) == untouched(supervisor),
{
    lemma_spawn_call_as_described(supervisor, world);
}

/// A call reports a performed spawn exactly when it started one process
/// and the supervisor holds it afterwards; after any other call that got
/// through the preflight from an idle supervisor, nothing is held.
pub proof fn lemma_performed_means_held<C>(supervisor: SupervisorView<C>, world: Surroundings<C>)
    requires
        supervisor.stage is Absent,
    ensures
        spawn_call(supervisor, world).started <= 1,
        spawn_call(supervisor, world).outcome == Ok::<bool, SidecarErrorView>(true) <==> spawn_call(
            supervisor,
            world,
        ).after.stage is Running,
        spawn_call(supervisor, world).outcome == Ok::<bool, SidecarErrorView>(true) ==> spawn_call(
            supervisor,
            world,
        ).started == 1,
        !(spawn_call(supervisor, world).after.stage is Running) ==> spawn_call(
            supervisor,
            world,
        ).after == supervisor,
{
    lemma_spawn_call_as_described(supervisor, world);
    assert(supervisor.at(Stage::Absent) == supervisor);
}

/// A process that is started and is gone after the settle interval makes
/// the call fail with that process's exit status, and no child is held: a
/// status query then reports the sidecar as not managed.
pub proof fn lemma_early_exit_detected<C>(
    supervisor: SupervisorView<C>,
    world: Surroundings<C>,
    status: ExitReportView,
    platform: Seq<char>,
)
    requires
        supervisor.stage is Absent,
        spawn_call(supervisor, world).started == 1,
        world.settle == (SettleAnswer::<C>::Exited { status }),
    ensures
        spawn_call(supervisor, world).outcome == Err::<bool, SidecarErrorView>(
            SidecarErrorView::SidecarExitedEarly { status },
        ),
        spawn_call(supervisor, world).after.stage is Absent,
        !snapshot_of(spawn_call(supervisor, world).after, platform).sidecar_managed,
{
    lemma_spawn_call_as_described(supervisor, world);
}

/// Spawn calls one after another, each in its own surroundings.
pub struct Calls<C> {
    /// The supervisor after the last call.
    pub after: SupervisorView<C>,
    /// What each call reported, in order.
    pub outcomes: Seq<Result<bool, SidecarErrorView>>,
    /// How many processes the calls started, all together.
    pub started: nat,
}

/// The calls made in `worlds`, in order, beginning at `supervisor`.
pub open spec fn spawn_calls<C>(
    supervisor: SupervisorView<C>,
    worlds: Seq<Surroundings<C>>,
) -> Calls<C>
    decreases worlds.len(),
{
    if worlds.len() == 0 {
        Calls { after: supervisor, outcomes: Seq::empty(), started: 0 }
    } else {
        let before = spawn_calls(supervisor, worlds.drop_last());
        let call = spawn_call(before.after, worlds.last());
        Calls {
            after: call.after,
            outcomes: before.outcomes.push(call.outcome),
            started: before.started + call.started,
        }
    }
}

/// Spawn is idempotent. Of any number of calls made one after another on
/// an idle supervisor, where the first call starts a process and, if more
/// calls follow, that process outlives the settle interval and each of
/// them can take the guard where it comes to need it: exactly one process
/// is started, and every call after the first reports that no spawn was
/// performed.
pub proof fn lemma_spawn_idempotent<C>(supervisor: SupervisorView<C>, worlds: Seq<Surroundings<C>>)
    requires
        supervisor.stage is Absent,
        worlds.len() >= 1,
        spawn_call(supervisor, worlds[0]).started == 1,
        worlds.len() > 1 ==> spawn_call(supervisor, worlds[0]).outcome == Ok::<
            bool,
            SidecarErrorView,
        >(true),
        forall|i: int|
            1 <= i < worlds.len() ==> !(preflight_end(supervisor, #[trigger] worlds[i]) is Fail),
    ensures
        spawn_calls(supervisor, worlds).started == 1,
        spawn_calls(supervisor, worlds).outcomes.len() == worlds.len(),
        spawn_calls(supervisor, worlds).outcomes[0] == spawn_call(supervisor, worlds[0]).outcome,
        forall|i: int|
            1 <= i < worlds.len() ==> spawn_calls(supervisor, worlds).outcomes[i] == Ok::<
                bool,
                SidecarErrorView,
            >(false),
        spawn_calls(supervisor, worlds).after == spawn_call(supervisor, worlds[0]).after,
    decreases worlds.len(),
{
    let front = worlds.drop_last();
    if worlds.len() == 1 {
        assert(front.len() == 0);
        assert(spawn_calls(supervisor, front).after == supervisor);
        assert(spawn_calls(supervisor, front).outcomes =~= Seq::empty());
    } else {
        assert(front[0] == worlds[0]);
        lemma_spawn_idempotent(supervisor, front);
        lemma_performed_means_held(supervisor, worlds[0]);
        lemma_spawn_while_held(spawn_calls(supervisor, front).after, worlds.last());
    }
}

/// Stop may be called at any time and as often as one likes: afterwards
/// nothing is held and nothing is under way, a stop on an idle supervisor
/// changes nothing and gives no child, and so does a second stop.
pub proof fn lemma_stop_idempotent<C>(supervisor: SupervisorView<C>)
    ensures
        supervisor.stopped().0.stage is Absent,
        supervisor.stopped().1 == supervisor.stage.child(),
        supervisor.stage is Absent ==> supervisor.stopped() == (supervisor, None::<C>),
        supervisor.stopped().0.stopped() == (supervisor.stopped().0, None::<C>),
{
    if supervisor.stage is Absent {
        assert(supervisor.at(Stage::Absent) == supervisor);
    }
    assert(supervisor.stopped().0.at(Stage::Absent) == supervisor.stopped().0);
}

/// The status follows ownership: after a call that performed a spawn a
/// status query reports the sidecar as managed, and after a stop as not
/// managed.
pub proof fn lemma_status_reflects_ownership<C>(
    supervisor: SupervisorView<C>,
    world: Surroundings<C>,
    platform: Seq<char>,
)
    requires
        spawn_call(supervisor, world).outcome == Ok::<bool, SidecarErrorView>(true),
    ensures
        snapshot_of(spawn_call(supervisor, world).after, platform).sidecar_managed,
        !snapshot_of(spawn_call(supervisor, world).after.stopped().0, platform).sidecar_managed,
        !snapshot_of(supervisor.stopped().0, platform).sidecar_managed,
{
    lemma_spawn_call_as_described(supervisor, world);
}

} // verus!
