//! The records that the service writes to the system log.

use vstd::prelude::*;
use vstd::string::*;
use crate::control::ControlRequest;
use crate::level::Severity;
use crate::status::LifecycleState;

verus! {

/// One thing worth telling the operator.
#[derive(Debug, Clone, PartialEq, Eq)]
pub enum Notice {
    /// Logging works; the service goes on to register itself.
    SettingUp,
    /// The supervisor sent a control request.
    ControlReceived(ControlRequest),
    /// The log file is open and the command is about to start.
    RunningCommand,
    /// The command ran and reported success.
    CommandSucceeded,
    /// The command could not be run or reported failure.
    CommandFailed(String),
    /// The log file could not be opened, so the command was not started.
    LogFileUnavailable(String),
    /// The supervisor did not take the report of a state.
    PublishFailed(LifecycleState, String),
    /// The supervisor could not be reached with the report of a state.
    SupervisorLost(LifecycleState, String),
    /// The activation is over.
    Terminated,
}

/// The word for a control request in a log record.
pub open spec fn request_word(request: ControlRequest) -> Seq<char> {
    match request {
        ControlRequest::Interrogate => "interrogate"@,
        ControlRequest::Stop => "stop"@,
        ControlRequest::Pause => "pause"@,
        ControlRequest::Continue => "continue"@,
        ControlRequest::Other => "other"@,
    }
}

impl Notice {
    /// How serious the record is: failures are errors, the two steps of the
    /// command's run are informational, the rest is for debugging.
    pub open spec fn rank(self) -> Severity {
        match self {
            Notice::CommandFailed(_) => Severity::Error,
            Notice::LogFileUnavailable(_) => Severity::Error,
            Notice::PublishFailed(_, _) => Severity::Error,
            Notice::SupervisorLost(_, _) => Severity::Error,
            Notice::RunningCommand => Severity::Info,
            Notice::CommandSucceeded => Severity::Info,
            Notice::SettingUp => Severity::Debug,
            Notice::ControlReceived(_) => Severity::Debug,
            Notice::Terminated => Severity::Debug,
        }
    }

    /// The line written to the log. A failure's line ends with the
    /// diagnostic text that came with it.
    pub open spec fn line(self) -> Seq<char> {
        match self {
            Notice::SettingUp => "Setting up service"@,
            Notice::ControlReceived(request) => "svc signal recieved: "@ + request_word(request),
            Notice::RunningCommand => "Running command!"@,
            Notice::CommandSucceeded => "Successfully ran handler script."@,
            Notice::CommandFailed(why) => "Unable to run handler; "@ + why@,
            Notice::LogFileUnavailable(why) => "Unable to open file; "@ + why@,
            Notice::PublishFailed(_, why) => "Unable to report status; "@ + why@,
            Notice::SupervisorLost(_, why) => "Unable to reach service manager; "@ + why@,
            Notice::Terminated => "service terminated"@,
        }
    }

    /// How serious the record is.
    pub fn severity(&self) -> (severity: Severity)
        ensures
            severity == self.rank(),
    {
        match self {
            Notice::CommandFailed(_) => Severity::Error,
            Notice::LogFileUnavailable(_) => Severity::Error,
            Notice::PublishFailed(_, _) => Severity::Error,
            Notice::SupervisorLost(_, _) => Severity::Error,
            Notice::RunningCommand => Severity::Info,
            Notice::CommandSucceeded => Severity::Info,
            Notice::SettingUp => Severity::Debug,
            Notice::ControlReceived(_) => Severity::Debug,
            Notice::Terminated => Severity::Debug,
        }
    }

    /// Renders the line written to the log.
    pub fn to_text(&self) -> (text: String)
        ensures
            text@ == self.line(),
    {
        match self {
            Notice::SettingUp => String::from_str("Setting up service"),
            Notice::ControlReceived(request) => {
                let word = match request {
                    ControlRequest::Interrogate => "interrogate",
                    ControlRequest::Stop => "stop",
                    ControlRequest::Pause => "pause",
                    ControlRequest::Continue => "continue",
                    ControlRequest::Other => "other",
                };
                String::from_str("svc signal recieved: ").concat(word)
            },
            Notice::RunningCommand => String::from_str("Running command!"),
            Notice::CommandSucceeded => String::from_str("Successfully ran handler script."),
            Notice::CommandFailed(why) => String::from_str("Unable to run handler; ").concat(
                why.as_str(),
            ),
            Notice::LogFileUnavailable(why) => String::from_str("Unable to open file; ").concat(
                why.as_str(),
            ),
            Notice::PublishFailed(_, why) => String::from_str("Unable to report status; ").concat(
                why.as_str(),
            ),
            Notice::SupervisorLost(_, why) => String::from_str(
                "Unable to reach service manager; ",
            ).concat(why.as_str()),
            Notice::Terminated => String::from_str("service terminated"),
        }
    }
}

} // verus!
