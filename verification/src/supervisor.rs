//! The supervisor: it holds at most one child process, starts it once, and
//! gives it up on request.
//!
//! The supervisor performs no input or output itself. Its host holds it
//! behind a guard, hands it events, and carries out the actions it answers
//! with. A spawn call is a conversation: once the preflight lets the call
//! proceed, the host sends [`Event::SpawnRequested`] and then, for every
//! action that asks for something, the event that reports how it went,
//! until the supervisor answers with [`Action::Finish`].

use crate::command::{
    build_command, candidate_names, candidates, command_for, CommandLine, CommandLineView,
};
use crate::config::{BackendConfig, BackendConfigView, ExecutionMode};
use crate::error::{ExitReport, ExitReportView, SidecarError, SidecarErrorView};
use crate::paths::{cache_dir, cache_dir_of, log_file, log_file_of};
use crate::sinks::{resolve_sinks, sink_for, SinkTarget, SinkTargetView};
use vstd::prelude::*;
use vstd::string::*;

verus! {

/// How long the host waits after a launch before it asks whether the child
/// is still there, in milliseconds.
pub const SETTLE_MS: u64 = 600;

/// Where the supervisor stands, seen from outside.
#[derive(Clone, Copy, Debug, PartialEq, Eq, Structural)]
pub enum Phase {
    /// No child is held and none is being started.
    Absent,
    /// A spawn call is under way.
    Starting,
    /// A child is held.
    Running,
}

/// Where the supervisor stands, in full: what it waits for while a spawn
/// call is under way, and the child once it holds one.
#[derive(Debug, PartialEq, Eq)]
pub enum Stage<C> {
    /// Nothing is held and nothing is under way.
    Absent,
    /// The host was asked to open the sinks.
    AwaitingSinks,
    /// The host was asked to look for the executable.
    AwaitingCandidates,
    /// The host was asked to start the command.
    AwaitingLaunch,
    /// The host was asked to wait and look at the child again.
    AwaitingSettle,
    /// This child is held.
    Running(C),
}

impl<C> Stage<C> {
    /// The stage, seen from outside.
    pub open spec fn phase(self) -> Phase {
        match self {
            Stage::Absent => Phase::Absent,
            Stage::Running(_) => Phase::Running,
            _ => Phase::Starting,
        }
    }

    /// The child that is held, if any.
    pub open spec fn child(self) -> Option<C> {
        match self {
            Stage::Running(child) => Some(child),
            _ => None,
        }
    }
}

/// What the host reports to the supervisor.
#[derive(Debug, PartialEq, Eq)]
pub enum Event<C> {
    /// A spawn call came through the preflight and holds the guard.
    SpawnRequested,
    /// The sinks asked for are open.
    SinksReady,
    /// The directory of the log file could not be created.
    DirectoryFailed { cause: String },
    /// The log file could not be opened, or its handle not duplicated.
    LogFailed { cause: String },
    /// The directory of the host application, if it could be told, and for
    /// each candidate name, in the order asked, whether a file of that name
    /// exists in it.
    CandidatesChecked { directory: Option<String>, present: Vec<bool> },
    /// The operating system started the process.
    Launched,
    /// The operating system did not start the process.
    LaunchFailed { cause: String },
    /// After the settle interval the process had ended.
    Exited { status: ExitReport },
    /// After the settle interval the process was still there.
    StillRunning { child: C },
}

/// The mathematical content of an [`Event`].
pub enum EventView<C> {
    SpawnRequested,
    SinksReady,
    DirectoryFailed { cause: Seq<char> },
    LogFailed { cause: Seq<char> },
    CandidatesChecked { directory: Option<Seq<char>>, present: Seq<bool> },
    Launched,
    LaunchFailed { cause: Seq<char> },
    Exited { status: ExitReportView },
    StillRunning { child: C },
}

impl<C> View for Event<C> {
    type V = EventView<C>;

    open spec fn view(&self) -> EventView<C> {
        match *self {
            Event::SpawnRequested => EventView::SpawnRequested,
            Event::SinksReady => EventView::SinksReady,
            Event::DirectoryFailed { cause } => EventView::DirectoryFailed { cause: cause@ },
            Event::LogFailed { cause } => EventView::LogFailed { cause: cause@ },
            Event::CandidatesChecked { directory, present } => EventView::CandidatesChecked {
                directory: directory.deep_view(),
                present: present@,
            },
            Event::Launched => EventView::Launched,
            Event::LaunchFailed { cause } => EventView::LaunchFailed { cause: cause@ },
            Event::Exited { status } => EventView::Exited { status: status@ },
            Event::StillRunning { child } => EventView::StillRunning { child },
        }
    }
}

/// What the supervisor asks of its host.
#[derive(Debug, PartialEq, Eq)]
pub enum Action<C> {
    /// Open the two sinks and keep them for the launch. Answer with
    /// [`Event::SinksReady`], [`Event::DirectoryFailed`] or
    /// [`Event::LogFailed`].
    OpenSinks { stdout: SinkTarget, stderr: SinkTarget },
    /// Look beside the host application for files of these names. Answer
    /// with [`Event::CandidatesChecked`].
    LocateExecutable { names: Vec<String> },
    /// Start the command with its output going to the two sinks. Answer
    /// with [`Event::Launched`] or [`Event::LaunchFailed`].
    Launch { command: CommandLine, stdout: SinkTarget, stderr: SinkTarget },
    /// Wait this many milliseconds, then look whether the child has ended.
    /// Answer with [`Event::Exited`] or [`Event::StillRunning`].
    Settle { millis: u64 },
    /// The spawn call is over: `Ok(true)` when a process was started and
    /// is now held, `Ok(false)` when no spawn was performed.
    Finish { outcome: Result<bool, SidecarError> },
    /// The event answers nothing the supervisor asked; nothing has
    /// changed. A child that came with the event is handed back.
    Refused { child: Option<C> },
}

/// The mathematical content of an [`Action`].
pub enum ActionView<C> {
    OpenSinks { stdout: SinkTargetView, stderr: SinkTargetView },
    LocateExecutable { names: Seq<Seq<char>> },
    Launch { command: CommandLineView, stdout: SinkTargetView, stderr: SinkTargetView },
    Settle { millis: u64 },
    Finish { outcome: Result<bool, SidecarErrorView> },
    Refused { child: Option<C> },
}

impl<C> View for Action<C> {
    type V = ActionView<C>;

    open spec fn view(&self) -> ActionView<C> {
        match *self {
            Action::OpenSinks { stdout, stderr } => ActionView::OpenSinks {
                stdout: stdout@,
                stderr: stderr@,
            },
            Action::LocateExecutable { names } => ActionView::LocateExecutable {
                names: names.deep_view(),
            },
            Action::Launch { command, stdout, stderr } => ActionView::Launch {
                command: command@,
                stdout: stdout@,
                stderr: stderr@,
            },
            Action::Settle { millis } => ActionView::Settle { millis },
            Action::Finish { outcome } => ActionView::Finish {
                outcome: match outcome {
                    Ok(performed) => Ok(performed),
                    Err(error) => Err(error@),
                },
            },
            Action::Refused { child } => ActionView::Refused { child },
        }
    }
}

/// The mathematical content of a [`Supervisor`].
pub struct SupervisorView<C> {
    pub mode: ExecutionMode,
    pub config: BackendConfigView,
    pub root: Seq<char>,
    pub stage: Stage<C>,
}

impl<C> SupervisorView<C> {
    /// The same supervisor at another stage.
    pub open spec fn at(self, stage: Stage<C>) -> SupervisorView<C> {
        SupervisorView { stage, ..self }
    }

    /// The cache directory below the project root.
    pub open spec fn cache_dir(self) -> Seq<char> {
        cache_dir_of(self.root)
    }

    /// Where either output stream of the child goes.
    pub open spec fn sink(self) -> SinkTargetView {
        sink_for(self.mode, self.cache_dir())
    }

    /// The step after the sinks are settled and the executable, where one
    /// is needed, was looked for: launch the command if there is one.
    pub open spec fn launch(self, directory: Option<Seq<char>>, present: Seq<bool>) -> (
        SupervisorView<C>,
        ActionView<C>,
    ) {
        match command_for(self.mode, self.config, self.root, directory, present) {
            Ok(command) => (
                self.at(Stage::AwaitingLaunch),
                ActionView::Launch { command, stdout: self.sink(), stderr: self.sink() },
            ),
            Err(error) => (self.at(Stage::Absent), ActionView::Finish { outcome: Err(error) }),
        }
    }

    /// The supervisor after an event, and what it asks of the host.
    ///
    /// A spawn request starts a spawn call only where nothing is held and
    /// nothing is under way; anywhere else no spawn is performed. Every
    /// failure ends the call and leaves nothing behind. An event that
    /// answers nothing the supervisor asked changes nothing.
    pub open spec fn next(self, event: EventView<C>) -> (SupervisorView<C>, ActionView<C>) {
        match (self.stage, event) {
            (Stage::Absent, EventView::SpawnRequested) => match self.mode {
                ExecutionMode::Development => (
                    self.at(Stage::AwaitingSinks),
                    ActionView::OpenSinks { stdout: self.sink(), stderr: self.sink() },
                ),
                ExecutionMode::Production => (
                    self.at(Stage::AwaitingCandidates),
                    ActionView::LocateExecutable { names: candidate_names() },
                ),
            },
            (_, EventView::SpawnRequested) => (self, ActionView::Finish { outcome: Ok(false) }),
            (Stage::AwaitingSinks, EventView::SinksReady) => self.launch(None, Seq::empty()),
            (Stage::AwaitingSinks, EventView::DirectoryFailed { cause }) => (
                self.at(Stage::Absent),
                ActionView::Finish {
                    outcome: Err(
                        SidecarErrorView::DirectoryCreateFailed { path: self.cache_dir(), cause },
                    ),
                },
            ),
            (Stage::AwaitingSinks, EventView::LogFailed { cause }) => (
                self.at(Stage::Absent),
                ActionView::Finish {
                    outcome: Err(
                        SidecarErrorView::LogOpenFailed {
                            path: log_file_of(self.cache_dir()),
                            cause,
                        },
                    ),
                },
            ),
            (Stage::AwaitingCandidates, EventView::CandidatesChecked { directory, present }) => {
                self.launch(directory, present)
            },
            (Stage::AwaitingLaunch, EventView::Launched) => (
                self.at(Stage::AwaitingSettle),
                ActionView::Settle { millis: SETTLE_MS },
            ),
            (Stage::AwaitingLaunch, EventView::LaunchFailed { cause }) => (
                self.at(Stage::Absent),
                ActionView::Finish { outcome: Err(SidecarErrorView::SpawnFailed { cause }) },
            ),
            (Stage::AwaitingSettle, EventView::Exited { status }) => (
                self.at(Stage::Absent),
                ActionView::Finish {
                    outcome: Err(SidecarErrorView::SidecarExitedEarly { status }),
                },
            ),
            (Stage::AwaitingSettle, EventView::StillRunning { child }) => (
                self.at(Stage::Running(child)),
                ActionView::Finish { outcome: Ok(true) },
            ),
            (_, EventView::StillRunning { child }) => (
                self,
                ActionView::Refused { child: Some(child) },
            ),
            _ => (self, ActionView::Refused { child: None }),
        }
    }

    /// The supervisor after a stop, and the child it gave up.
    pub open spec fn stopped(self) -> (SupervisorView<C>, Option<C>) {
        (self.at(Stage::Absent), self.stage.child())
    }
}

/// The supervisor of the backend process. `C` is the host's handle on a
/// child process; the supervisor keeps it and never looks inside.
#[derive(Debug)]
pub struct Supervisor<C> {
    mode: ExecutionMode,
    config: BackendConfig,
    root: String,
    stage: Stage<C>,
}

impl<C> View for Supervisor<C> {
    type V = SupervisorView<C>;

    closed spec fn view(&self) -> SupervisorView<C> {
        SupervisorView {
            mode: self.mode,
            config: self.config@,
            root: self.root@,
            stage: self.stage,
        }
    }
}

impl<C> Supervisor<C> {
    /// A supervisor that holds nothing, for a backend run in `mode` with
    /// `config` below the project root `root`.
    pub fn new(mode: ExecutionMode, config: BackendConfig, root: &str) -> (supervisor: Self)
        ensures
            supervisor@ == (SupervisorView::<C> {
                mode,
                config: config@,
                root: root@,
                stage: Stage::Absent,
            }),
    {
        Supervisor { mode, config, root: root.to_owned(), stage: Stage::Absent }
    }

    /// The configuration the supervisor was built with.
    pub fn config(&self) -> (config: &BackendConfig)
        ensures
            config@ == self@.config,
    {
        &self.config
    }

    /// Where the supervisor stands.
    pub fn phase(&self) -> (phase: Phase)
        ensures
            phase == self@.stage.phase(),
    {
        match &self.stage {
            Stage::Absent => Phase::Absent,
            Stage::Running(_) => Phase::Running,
            _ => Phase::Starting,
        }
    }

    /// Whether a child is held right now.
    pub fn owns_child(&self) -> (owned: bool)
        ensures
            owned == (self@.stage.child() is Some),
    {
        match &self.stage {
            Stage::Running(_) => true,
            _ => false,
        }
    }

    /// Ends a spawn call with an error; nothing is held afterwards.
    fn fail(&mut self, error: SidecarError) -> (action: Action<C>)
        ensures
            final(self)@ == old(self)@.at(Stage::Absent),
            action@ == (ActionView::<C>::Finish { outcome: Err(error@) }),
    {
        self.stage = Stage::Absent;
        Action::Finish { outcome: Err(error) }
    }

    /// Builds the command and asks for its launch, or ends the call where
    /// there is no command.
    fn launch(&mut self, directory: Option<&str>, present: &Vec<bool>) -> (action: Action<C>)
        ensures
            (final(self)@, action@) == old(self)@.launch(directory.deep_view(), present@),
    {
        match build_command(self.mode, &self.config, self.root.as_str(), directory, present) {
            Ok(command) => {
                let cache = cache_dir(self.root.as_str());
                let (stdout, stderr) = resolve_sinks(self.mode, cache.as_str());
                self.stage = Stage::AwaitingLaunch;
                Action::Launch { command, stdout, stderr }
            },
            Err(error) => self.fail(error),
        }
    }

    /// Takes one event and says what the host is to do next.
    pub fn step(&mut self, event: Event<C>) -> (action: Action<C>)
        ensures
            (final(self)@, action@) == old(self)@.next(event@),
    {
        match event {
            Event::SpawnRequested => match &self.stage {
                Stage::Absent => {
                    let cache = cache_dir(self.root.as_str());
                    match self.mode {
                        ExecutionMode::Development => {
                            let (stdout, stderr) = resolve_sinks(self.mode, cache.as_str());
                            self.stage = Stage::AwaitingSinks;
                            Action::OpenSinks { stdout, stderr }
                        },
                        ExecutionMode::Production => {
                            self.stage = Stage::AwaitingCandidates;
                            Action::LocateExecutable { names: candidates() }
                        },
                    }
                },
                _ => Action::Finish { outcome: Ok(false) },
            },
            Event::SinksReady => match &self.stage {
                Stage::AwaitingSinks => {
                    let present: Vec<bool> = Vec::new();
                    assert(present@ =~= Seq::<bool>::empty());
                    self.launch(None, &present)
                },
                _ => Action::Refused { child: None },
            },
            Event::DirectoryFailed { cause } => match &self.stage {
                Stage::AwaitingSinks => {
                    let path = cache_dir(self.root.as_str());
                    self.fail(SidecarError::DirectoryCreateFailed { path, cause })
                },
                _ => Action::Refused { child: None },
            },
            Event::LogFailed { cause } => match &self.stage {
                Stage::AwaitingSinks => {
                    let cache = cache_dir(self.root.as_str());
                    let path = log_file(cache.as_str());
                    self.fail(SidecarError::LogOpenFailed { path, cause })
                },
                _ => Action::Refused { child: None },
            },
            Event::CandidatesChecked { directory, present } => match &self.stage {
                Stage::AwaitingCandidates => {
                    match &directory {
                        Some(dir) => self.launch(Some(dir.as_str()), &present),
                        None => self.launch(None, &present),
                    }
                },
                _ => Action::Refused { child: None },
            },
            Event::Launched => match &self.stage {
                Stage::AwaitingLaunch => {
                    self.stage = Stage::AwaitingSettle;
                    Action::Settle { millis: SETTLE_MS }
                },
                _ => Action::Refused { child: None },
            },
            Event::LaunchFailed { cause } => match &self.stage {
                Stage::AwaitingLaunch => self.fail(SidecarError::SpawnFailed { cause }),
                _ => Action::Refused { child: None },
            },
            Event::Exited { status } => match &self.stage {
                Stage::AwaitingSettle => self.fail(SidecarError::SidecarExitedEarly { status }),
                _ => Action::Refused { child: None },
            },
            Event::StillRunning { child } => match &self.stage {
                Stage::AwaitingSettle => {
                    self.stage = Stage::Running(child);
                    Action::Finish { outcome: Ok(true) }
                },
                _ => Action::Refused { child: Some(child) },
            },
        }
    }
}

/// Gives up the child, if one is held, and leaves the supervisor holding
/// nothing. The host ends the child that comes back and waits until it is
/// gone; without one there is nothing to do.
pub fn stop_backend_sidecar<C>(supervisor: &mut Supervisor<C>) -> (child: Option<C>)
    ensures
        (final(supervisor)@, child) == old(supervisor)@.stopped(),
{
    let mut stage = Stage::Absent;
    core::mem::swap(&mut supervisor.stage, &mut stage);
    match stage {
        Stage::Running(child) => Some(child),
        _ => None,
    }
}

} // verus!
