//! The command that the service exists to run, and how one run of it ended.

use vstd::prelude::*;
use vstd::string::*;

verus! {

/// The interpreter that runs the handler script.
pub const PROGRAM: &'static str = "C:\\Windows\\System32\\WindowsPowerShell\\v1.0\\powershell.exe";

/// The handler script.
pub const SCRIPT: &'static str = "C:\\Temp\\service.ps1";

/// The file that collects everything the command prints.
pub const LOG_PATH: &'static str = "C:\\Temp\\service.log";

/// One external command with its arguments and the file that receives its
/// output.
#[derive(Debug, Clone, PartialEq, Eq)]
pub struct Workload {
    /// The program to start.
    pub program: String,
    /// Its arguments, in order.
    pub args: Vec<String>,
    /// The file to which standard output and standard error are appended.
    pub log_path: String,
}

/// How one run of the workload ended.
#[derive(Debug, Clone, PartialEq, Eq)]
pub enum WorkloadResult {
    /// The command ran and reported success.
    Success,
    /// The command could not be run, or reported failure; the text says
    /// which.
    Failure(String),
}

impl Workload {
    /// Whether this is the one workload the service runs: the interpreter,
    /// told to bypass the execution policy and to run the handler script,
    /// with its output appended to the log file.
    pub open spec fn is_fixed(self) -> bool {
        &&& self.program@ == PROGRAM@
        &&& self.args@.len() == 4
        &&& self.args@[0]@ == "-ExecutionPolicy"@
        &&& self.args@[1]@ == "Bypass"@
        &&& self.args@[2]@ == "-File"@
        &&& self.args@[3]@ == SCRIPT@
        &&& self.log_path@ == LOG_PATH@
    }

    /// The workload the service runs.
    pub fn fixed() -> (workload: Workload)
        ensures
            workload.is_fixed(),
    {
        let mut args: Vec<String> = Vec::new();
        args.push(String::from_str("-ExecutionPolicy"));
        args.push(String::from_str("Bypass"));
        args.push(String::from_str("-File"));
        args.push(String::from_str(SCRIPT));
        Workload {
            program: String::from_str(PROGRAM),
            args,
            log_path: String::from_str(LOG_PATH),
        }
    }
}

impl WorkloadResult {
    /// The result of a command that ran to its end: success exactly when it
    /// left with exit code zero, otherwise a failure that carries the
    /// rendering of its exit status.
    pub open spec fn of_exit(code: Option<i32>, status: String) -> WorkloadResult {
        if code == Some(0i32) {
            WorkloadResult::Success
        } else {
            WorkloadResult::Failure(status)
        }
    }

    /// Whether the run succeeded.
    pub open spec fn succeeded(self) -> bool {
        self is Success
    }

    /// Judges a command that ran to its end by its exit code.
    pub fn from_exit(code: Option<i32>, status: String) -> (result: WorkloadResult)
        ensures
            result == Self::of_exit(code, status),
    {
        match code {
            Some(0) => WorkloadResult::Success,
            _ => WorkloadResult::Failure(status),
        }
    }

    /// Whether the run succeeded.
    pub fn is_success(&self) -> (yes: bool)
        ensures
            yes == self.succeeded(),
    {
        match self {
            WorkloadResult::Success => true,
            WorkloadResult::Failure(_) => false,
        }
    }
}

} // verus!
