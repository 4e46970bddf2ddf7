//! The lifecycle of one activation of the service.
//!
//! The runtime decides; a driver acts. The runtime names the next action,
//! the driver performs it against the operating system and hands back what
//! came of it as an event, and the runtime answers with the action that
//! follows. Nothing here touches the operating system.

use vstd::prelude::*;
use crate::config::{ConfigLookup, ServiceConfiguration};
use crate::control::{acknowledge, ack_of, ControlAck, ControlRequest};
use crate::err::Error;
use crate::level::LogLevel;
use crate::notice::Notice;
use crate::status::{LifecycleState, StatusReport};
use crate::workload::WorkloadResult;

verus! {

/// Where an activation stands: which action the driver has been asked for
/// and not yet answered.
#[derive(Clone, Copy, Debug, PartialEq, Eq, Structural)]
pub enum Phase {
    /// The configuration record is being read.
    LoadingConfig,
    /// The system log is being set up.
    InitLogging,
    /// The working directory is being changed.
    ChangingDir,
    /// The control handler is being registered with the supervisor.
    Registering,
    /// The given state is being reported to the supervisor.
    Publishing(LifecycleState),
    /// The file for the command's output is being opened.
    OpeningLog,
    /// The command is running.
    RunningCommand,
    /// The activation ran to its end.
    Finished,
    /// The start failed before the service was registered.
    Failed,
    /// The supervisor could not be reached to report the given state, and
    /// the activation was given up.
    Abandoned(LifecycleState),
}

/// What the driver reports back after performing an action.
#[derive(Debug, Clone, PartialEq, Eq)]
pub enum Event {
    /// The backend was asked for the configuration record.
    ConfigLoaded(ConfigLookup),
    /// The system log is ready.
    LoggingReady,
    /// The system log could not be set up.
    LoggingFailed(String),
    /// The working directory is changed.
    DirChanged,
    /// The working directory could not be changed.
    DirChangeFailed(String),
    /// The supervisor took the control handler.
    Registered,
    /// The supervisor refused the control handler.
    RegistrationFailed(String),
    /// The supervisor took the status record.
    Published,
    /// The supervisor did not take the status record.
    PublishFailed(String),
    /// The supervisor could not be reached with the status record.
    SupervisorLost(String),
    /// The file for the command's output is open.
    LogOpened,
    /// The file for the command's output could not be opened.
    LogOpenFailed(String),
    /// The command ran to its end with this exit code, if it left one;
    /// `status` is the rendering of its exit status.
    CommandExited { code: Option<i32>, status: String },
    /// The command could not be started.
    SpawnFailed(String),
}

/// The system error code with which the supervisor turns down a status
/// record that it finds invalid.
pub const ERROR_INVALID_DATA: i32 = 13;

/// What the driver is asked to do next. An action carries what the runtime
/// decided; the service's name and its workload are the driver's own.
#[derive(Debug, Clone, PartialEq, Eq)]
pub enum Action {
    /// Ask the backend for the service's configuration record.
    LoadConfig,
    /// Set up the system log so that it emits up to `level`.
    InitLogging { level: LogLevel },
    /// Change the working directory to `path`.
    ChangeDir { path: String },
    /// Register the control handler with the supervisor.
    Register,
    /// Hand this status record to the supervisor.
    Report(StatusReport),
    /// Open the file for the command's output, for appending.
    OpenLog,
    /// Run the command with its output going to the opened file, and wait
    /// for it.
    RunCommand,
    /// Leave: the activation ran to its end.
    Finish,
    /// Leave at once with the error that ended the activation.
    Abort(Error),
    /// Nothing: the event answered no pending action.
    Nothing,
}

/// The runtime's answer to one event.
#[derive(Debug, Clone, PartialEq, Eq)]
pub struct Output {
    /// What to write to the system log, in order.
    pub notices: Vec<Notice>,
    /// What to do next.
    pub action: Action,
}

/// The runtime's answer to one control request.
#[derive(Debug, Clone, PartialEq, Eq)]
pub struct ControlReply {
    /// What to tell the supervisor.
    pub ack: ControlAck,
    /// What to write to the system log.
    pub notice: Notice,
}

/// The state of one activation.
#[derive(Debug, Clone, PartialEq, Eq)]
pub struct Runtime {
    /// The action that is pending.
    pub phase: Phase,
    /// The settings in force; the defaults until the record is read.
    pub config: ServiceConfiguration,
    /// How the workload's run ended, once it has.
    pub result: Option<WorkloadResult>,
}

/// The mathematical answer to one event: the state that follows, the notices
/// and the action.
pub struct Transition {
    pub state: Runtime,
    pub notices: Seq<Notice>,
    pub action: Action,
}

impl Event {
    /// The event that a failed report amounts to. The supervisor has turned
    /// the record down if the system gave `ERROR_INVALID_DATA`; with any
    /// other code, or none, the supervisor could not be reached.
    pub open spec fn of_publish_failure(code: Option<i32>, why: String) -> Event {
        if code == Some(ERROR_INVALID_DATA) {
            Event::PublishFailed(why)
        } else {
            Event::SupervisorLost(why)
        }
    }

    /// Tells a record that was turned down from a supervisor that could not
    /// be reached, by the system error code of the failed report.
    pub fn from_publish_failure(code: Option<i32>, why: String) -> (event: Event)
        ensures
            event == Self::of_publish_failure(code, why),
    {
        match code {
            Some(ERROR_INVALID_DATA) => Event::PublishFailed(why),
            _ => Event::SupervisorLost(why),
        }
    }
}

impl Phase {
    /// The state last handed over for the supervisor, if any was.
    pub open spec fn lifecycle(self) -> Option<LifecycleState> {
        match self {
            Phase::Publishing(state) => Some(state),
            Phase::OpeningLog => Some(LifecycleState::Running),
            Phase::RunningCommand => Some(LifecycleState::Running),
            Phase::Finished => Some(LifecycleState::Stopped),
            Phase::Abandoned(state) => Some(state),
            _ => None,
        }
    }

    /// How many states have been handed over for the supervisor by the time
    /// this phase is reached.
    pub open spec fn reports_made(self) -> nat {
        match self.lifecycle() {
            Some(state) => state.rank() + 1,
            None => 0,
        }
    }

    /// How far the activation has come: every action that is answered takes
    /// it further, and an activation that is over has come all the way.
    pub open spec fn progress(self) -> nat {
        match self {
            Phase::LoadingConfig => 0,
            Phase::InitLogging => 1,
            Phase::ChangingDir => 2,
            Phase::Registering => 3,
            Phase::Publishing(LifecycleState::StartPending) => 4,
            Phase::Publishing(LifecycleState::Running) => 5,
            Phase::OpeningLog => 6,
            Phase::RunningCommand => 7,
            Phase::Publishing(LifecycleState::StopPending) => 8,
            Phase::Publishing(LifecycleState::Stopped) => 9,
            Phase::Finished => 10,
            Phase::Failed => 10,
            Phase::Abandoned(_) => 10,
        }
    }

    /// Whether the phase lies after the opening of the file for the
    /// command's output.
    pub open spec fn past_opening(self) -> bool {
        match self {
            Phase::RunningCommand => true,
            Phase::Finished => true,
            Phase::Publishing(state) => state.rank() >= 2,
            Phase::Abandoned(state) => state.rank() >= 2,
            _ => false,
        }
    }

    /// Whether the activation is over.
    pub open spec fn is_over(self) -> bool {
        self == Phase::Finished || self == Phase::Failed || self is Abandoned
    }
}

impl Runtime {
    /// The state in which every activation begins: the record is about to be
    /// read, the defaults are in force and the workload has not run.
    pub open spec fn initial() -> Runtime {
        Runtime {
            phase: Phase::LoadingConfig,
            config: ServiceConfiguration::defaults(),
            result: None,
        }
    }

    /// The result of the workload's run is known exactly from the moment the
    /// stop is reported.
    pub open spec fn wf(self) -> bool {
        self.result is Some <==> (self.lifecycle() matches Some(state) && state.rank() >= 2)
    }

    /// The state last handed over for the supervisor, if any was.
    pub open spec fn lifecycle(self) -> Option<LifecycleState> {
        self.phase.lifecycle()
    }

    /// The runtime in another phase, all else unchanged.
    pub open spec fn at(self, phase: Phase) -> Runtime {
        Runtime { phase, config: self.config, result: self.result }
    }

    /// A failed start: the activation ends with `error`, and nothing is
    /// logged.
    pub open spec fn abort(self, error: Error) -> Transition {
        Transition {
            state: self.at(Phase::Failed),
            notices: Seq::empty(),
            action: Action::Abort(error),
        }
    }

    /// What follows the report of `state`, whether or not the supervisor took
    /// it: the next state is reported, the workload is begun, or the
    /// activation ends.
    pub open spec fn after_report(self, state: LifecycleState, notices: Seq<Notice>) -> Transition {
        match state {
            LifecycleState::StartPending => Transition {
                state: self.at(Phase::Publishing(LifecycleState::Running)),
                notices,
                action: Action::Report(LifecycleState::Running.report()),
            },
            LifecycleState::Running => Transition {
                state: self.at(Phase::OpeningLog),
                notices,
                action: Action::OpenLog,
            },
            LifecycleState::StopPending => Transition {
                state: self.at(Phase::Publishing(LifecycleState::Stopped)),
                notices,
                action: Action::Report(LifecycleState::Stopped.report()),
            },
            LifecycleState::Stopped => Transition {
                state: self.at(Phase::Finished),
                notices: notices.push(Notice::Terminated),
                action: Action::Finish,
            },
        }
    }

    /// The end of the workload's one run: its result is kept and logged, and
    /// the stop is reported whatever the result is.
    pub open spec fn wind_down(self, result: WorkloadResult, notice: Notice) -> Transition {
        Transition {
            state: Runtime {
                phase: Phase::Publishing(LifecycleState::StopPending),
                config: self.config,
                result: Some(result),
            },
            notices: seq![notice],
            action: Action::Report(LifecycleState::StopPending.report()),
        }
    }

    /// The answer to an event that answers no pending action: nothing
    /// changes and nothing is to be done.
    pub open spec fn unmoved(self) -> Transition {
        Transition { state: self, notices: Seq::empty(), action: Action::Nothing }
    }

    /// Whether `event` answers the action that is pending.
    pub open spec fn expects(self, event: Event) -> bool {
        match self.phase {
            Phase::LoadingConfig => event is ConfigLoaded,
            Phase::InitLogging => event is LoggingReady || event is LoggingFailed,
            Phase::ChangingDir => event is DirChanged || event is DirChangeFailed,
            Phase::Registering => event is Registered || event is RegistrationFailed,
            Phase::Publishing(_) => event is Published || event is PublishFailed
                || event is SupervisorLost,
            Phase::OpeningLog => event is LogOpened || event is LogOpenFailed,
            Phase::RunningCommand => event is CommandExited || event is SpawnFailed,
            Phase::Finished => false,
            Phase::Failed => false,
            Phase::Abandoned(_) => false,
        }
    }

    /// The answer to one event.
    ///
    /// Before registration every failure ends the activation with its error.
    /// From registration on only the loss of the supervisor does: a report
    /// that the supervisor does not take is logged and the next step follows
    /// as if it had been taken, and the workload's result is logged and the
    /// stop reported whether the run succeeded or not.
    pub open spec fn transition(self, event: Event) -> Transition {
        match (self.phase, event) {
            (Phase::LoadingConfig, Event::ConfigLoaded(lookup)) => {
                match ServiceConfiguration::of_lookup(lookup) {
                    Ok(config) => Transition {
                        state: Runtime { phase: Phase::InitLogging, config, result: self.result },
                        notices: Seq::empty(),
                        action: Action::InitLogging { level: config.level },
                    },
                    Err(error) => self.abort(error),
                }
            },
            (Phase::InitLogging, Event::LoggingReady) => {
                match self.config.work_dir {
                    Some(path) => Transition {
                        state: self.at(Phase::ChangingDir),
                        notices: seq![Notice::SettingUp],
                        action: Action::ChangeDir { path },
                    },
                    None => Transition {
                        state: self.at(Phase::Registering),
                        notices: seq![Notice::SettingUp],
                        action: Action::Register,
                    },
                }
            },
            (Phase::InitLogging, Event::LoggingFailed(why)) => self.abort(Error::EventLog(why)),
            (Phase::ChangingDir, Event::DirChanged) => Transition {
                state: self.at(Phase::Registering),
                notices: Seq::empty(),
                action: Action::Register,
            },
            (Phase::ChangingDir, Event::DirChangeFailed(why)) => self.abort(Error::IO(why)),
            (Phase::Registering, Event::Registered) => Transition {
                state: self.at(Phase::Publishing(LifecycleState::StartPending)),
                notices: Seq::empty(),
                action: Action::Report(LifecycleState::StartPending.report()),
            },
            (Phase::Registering, Event::RegistrationFailed(why)) => self.abort(
                Error::WindowsService(why),
            ),
            (Phase::Publishing(state), Event::Published) => self.after_report(state, Seq::empty()),
            (Phase::Publishing(state), Event::PublishFailed(why)) => self.after_report(
                state,
                seq![Notice::PublishFailed(state, why)],
            ),
            (Phase::Publishing(state), Event::SupervisorLost(why)) => Transition {
                state: self.at(Phase::Abandoned(state)),
                notices: seq![Notice::SupervisorLost(state, why)],
                action: Action::Abort(Error::WindowsService(why)),
            },
            (Phase::OpeningLog, Event::LogOpened) => Transition {
                state: self.at(Phase::RunningCommand),
                notices: seq![Notice::RunningCommand],
                action: Action::RunCommand,
            },
            (Phase::OpeningLog, Event::LogOpenFailed(why)) => self.wind_down(
                WorkloadResult::Failure(why),
                Notice::LogFileUnavailable(why),
            ),
            (Phase::RunningCommand, Event::CommandExited { code, status }) => self.wind_down(
                WorkloadResult::of_exit(code, status),
                if code == Some(0i32) {
                    Notice::CommandSucceeded
                } else {
                    Notice::CommandFailed(status)
                },
            ),
            (Phase::RunningCommand, Event::SpawnFailed(why)) => self.wind_down(
                WorkloadResult::Failure(why),
                Notice::CommandFailed(why),
            ),
            _ => self.unmoved(),
        }
    }

    /// The state after a control request: the one before it. No request
    /// moves the lifecycle, a stop request included.
    pub open spec fn after_control(self, request: ControlRequest) -> Runtime {
        self
    }

    /// The state reached from this one by a sequence of events.
    pub open spec fn run(self, events: Seq<Event>) -> Runtime
        decreases events.len(),
    {
        if events.len() == 0 {
            self
        } else {
            self.run(events.drop_last()).transition(events.last()).state
        }
    }

    /// The actions issued in answer to a sequence of events, one per event.
    pub open spec fn issued(self, events: Seq<Event>) -> Seq<Action>
        decreases events.len(),
    {
        if events.len() == 0 {
            Seq::empty()
        } else {
            self.issued(events.drop_last()).push(
                self.run(events.drop_last()).transition(events.last()).action,
            )
        }
    }

    /// The states handed to the supervisor in answer to a sequence of
    /// events, in the order in which they were handed over.
    pub open spec fn reported(self, events: Seq<Event>) -> Seq<LifecycleState>
        decreases events.len(),
    {
        if events.len() == 0 {
            Seq::empty()
        } else {
            let before = self.reported(events.drop_last());
            match self.run(events.drop_last()).transition(events.last()).action {
                Action::Report(record) => before.push(record.state),
                _ => before,
            }
        }
    }

    /// How often the driver was asked to run the command in answer to a
    /// sequence of events.
    pub open spec fn command_runs(self, events: Seq<Event>) -> nat
        decreases events.len(),
    {
        if events.len() == 0 {
            0
        } else {
            let before = self.command_runs(events.drop_last());
            if self.run(events.drop_last()).transition(events.last()).action
                == Action::RunCommand {
                before + 1
            } else {
                before
            }
        }
    }

    /// Begins an activation. The first action is always to read the
    /// configuration record.
    pub fn start() -> (begun: (Runtime, Action))
        ensures
            begun.0 == Self::initial(),
            begun.1 == Action::LoadConfig,
    {
        let runtime = Runtime {
            phase: Phase::LoadingConfig,
            config: ServiceConfiguration::new(),
            result: None,
        };
        (runtime, Action::LoadConfig)
    }

    /// The state last handed over for the supervisor, if any was.
    pub fn current_state(&self) -> (state: Option<LifecycleState>)
        ensures
            state == self.lifecycle(),
    {
        match self.phase {
            Phase::Publishing(state) => Some(state),
            Phase::OpeningLog => Some(LifecycleState::Running),
            Phase::RunningCommand => Some(LifecycleState::Running),
            Phase::Finished => Some(LifecycleState::Stopped),
            Phase::Abandoned(state) => Some(state),
            _ => None,
        }
    }

    /// Whether the activation is over.
    pub fn is_over(&self) -> (over: bool)
        ensures
            over == self.phase.is_over(),
    {
        match self.phase {
            Phase::Finished => true,
            Phase::Failed => true,
            Phase::Abandoned(_) => true,
            _ => false,
        }
    }

    /// Answers one control request. The answer follows the dispatch table
    /// and the runtime is left exactly as it was.
    pub fn control(&mut self, request: ControlRequest) -> (reply: ControlReply)
        ensures
            *final(self) == old(self).after_control(request),
            reply.ack == ack_of(request),
            reply.notice == Notice::ControlReceived(request),
    {
        ControlReply { ack: acknowledge(request), notice: Notice::ControlReceived(request) }
    }

    fn fail(&mut self, error: Error) -> (out: Output)
        ensures
            *final(self) == old(self).abort(error).state,
            out.notices@ == old(self).abort(error).notices,
            out.action == old(self).abort(error).action,
    {
        self.phase = Phase::Failed;
        Output { notices: Vec::new(), action: Action::Abort(error) }
    }

    fn proceed(&mut self, state: LifecycleState, notices: Vec<Notice>) -> (out: Output)
        ensures
            *final(self) == old(self).after_report(state, notices@).state,
            out.notices@ == old(self).after_report(state, notices@).notices,
            out.action == old(self).after_report(state, notices@).action,
    {
        let mut notices = notices;
        match state {
            LifecycleState::StartPending => {
                self.phase = Phase::Publishing(LifecycleState::Running);
                Output { notices, action: Action::Report(LifecycleState::Running.status()) }
            },
            LifecycleState::Running => {
                self.phase = Phase::OpeningLog;
                Output { notices, action: Action::OpenLog }
            },
            LifecycleState::StopPending => {
                self.phase = Phase::Publishing(LifecycleState::Stopped);
                Output { notices, action: Action::Report(LifecycleState::Stopped.status()) }
            },
            LifecycleState::Stopped => {
                self.phase = Phase::Finished;
                notices.push(Notice::Terminated);
                Output { notices, action: Action::Finish }
            },
        }
    }

    fn conclude(&mut self, result: WorkloadResult, notice: Notice) -> (out: Output)
        ensures
            *final(self) == old(self).wind_down(result, notice).state,
            out.notices@ == old(self).wind_down(result, notice).notices,
            out.action == old(self).wind_down(result, notice).action,
    {
        self.phase = Phase::Publishing(LifecycleState::StopPending);
        self.result = Some(result);
        let mut notices: Vec<Notice> = Vec::new();
        notices.push(notice);
        Output { notices, action: Action::Report(LifecycleState::StopPending.status()) }
    }

    fn say(&mut self, phase: Phase, notice: Option<Notice>, action: Action) -> (out: Output)
        ensures
            *final(self) == old(self).at(phase),
            out.notices@ == match notice {
                Some(n) => seq![n],
                None => Seq::empty(),
            },
            out.action == action,
    {
        self.phase = phase;
        let mut notices: Vec<Notice> = Vec::new();
        match notice {
            Some(n) => {
                notices.push(n);
            },
            None => {},
        }
        Output { notices, action }
    }

    /// Takes what came of the pending action and names the action that
    /// follows. An event that does not answer the pending action changes
    /// nothing and is answered with `Action::Nothing`.
    pub fn step(&mut self, event: Event) -> (out: Output)
        ensures
            *final(self) == old(self).transition(event).state,
            out.notices@ == old(self).transition(event).notices,
            out.action == old(self).transition(event).action,
    {
        match (self.phase, event) {
            (Phase::LoadingConfig, Event::ConfigLoaded(lookup)) => {
                match ServiceConfiguration::from_lookup(lookup) {
                    Ok(config) => {
                        let level = config.level;
                        self.config = config;
                        self.say(Phase::InitLogging, None, Action::InitLogging { level })
                    },
                    Err(error) => self.fail(error),
                }
            },
            (Phase::InitLogging, Event::LoggingReady) => {
                let target = match &self.config.work_dir {
                    Some(path) => Some(path.clone()),
                    None => None,
                };
                match target {
                    Some(path) => self.say(
                        Phase::ChangingDir,
                        Some(Notice::SettingUp),
                        Action::ChangeDir { path },
                    ),
                    None => self.say(Phase::Registering, Some(Notice::SettingUp), Action::Register),
                }
            },
            (Phase::InitLogging, Event::LoggingFailed(why)) => self.fail(Error::EventLog(why)),
            (Phase::ChangingDir, Event::DirChanged) => self.say(
                Phase::Registering,
                None,
                Action::Register,
            ),
            (Phase::ChangingDir, Event::DirChangeFailed(why)) => self.fail(Error::IO(why)),
            (Phase::Registering, Event::Registered) => self.say(
                Phase::Publishing(LifecycleState::StartPending),
                None,
                Action::Report(LifecycleState::StartPending.status()),
            ),
            (Phase::Registering, Event::RegistrationFailed(why)) => self.fail(
                Error::WindowsService(why),
            ),
            (Phase::Publishing(state), Event::Published) => self.proceed(state, Vec::new()),
            (Phase::Publishing(state), Event::PublishFailed(why)) => {
                let mut notices: Vec<Notice> = Vec::new();
                notices.push(Notice::PublishFailed(state, why));
                self.proceed(state, notices)
            },
            (Phase::Publishing(state), Event::SupervisorLost(why)) => {
                let kept = why.clone();
                self.say(
                    Phase::Abandoned(state),
                    Some(Notice::SupervisorLost(state, kept)),
                    Action::Abort(Error::WindowsService(why)),
                )
            },
            (Phase::OpeningLog, Event::LogOpened) => self.say(
                Phase::RunningCommand,
                Some(Notice::RunningCommand),
                Action::RunCommand,
            ),
            (Phase::OpeningLog, Event::LogOpenFailed(why)) => {
                let kept = why.clone();
                self.conclude(WorkloadResult::Failure(kept), Notice::LogFileUnavailable(why))
            },
            (Phase::RunningCommand, Event::CommandExited { code, status }) => {
                let notice = match code {
                    Some(0) => Notice::CommandSucceeded,
                    _ => Notice::CommandFailed(status.clone()),
                };
                self.conclude(WorkloadResult::from_exit(code, status), notice)
            },
            (Phase::RunningCommand, Event::SpawnFailed(why)) => {
                let kept = why.clone();
                self.conclude(WorkloadResult::Failure(kept), Notice::CommandFailed(why))
            },
            _ => Output { notices: Vec::new(), action: Action::Nothing },
        }
    }
}

} // verus!
