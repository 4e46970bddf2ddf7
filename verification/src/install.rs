//! What is registered with the supervisor when the service is installed.

use vstd::prelude::*;
use vstd::string::*;
use crate::config::{Config, ServiceConfiguration};
use crate::level::LogLevel;

verus! {

/// The first argument with which the supervisor starts the program.
pub const RUN_SUBCOMMAND: &'static str = "run-service";

/// The description of a service that is installed without one.
pub const DEFAULT_DESCRIPTION: &'static str = "Service Wrapper Service";

/// What the command line asked of the installation.
#[derive(Debug, Clone, PartialEq, Eq)]
pub struct Context {
    /// Help was asked for; nothing is to be installed.
    pub do_help: bool,
    /// The name under which the service is registered.
    pub svcname: String,
    /// The name shown to the operator, if one was given.
    pub displayname: Option<String>,
    /// The description shown to the operator, if one was given.
    pub description: Option<String>,
    /// The services that must run before this one, in the order given.
    pub deps: Vec<String>,
}

/// When the supervisor starts a service.
#[derive(Clone, Copy, Debug, PartialEq, Eq, Structural)]
pub enum StartMode {
    /// When the system starts.
    Automatic,
    /// When someone asks for it.
    OnDemand,
    /// Never.
    Disabled,
}

/// What the supervisor does when a service fails to start.
#[derive(Clone, Copy, Debug, PartialEq, Eq, Structural)]
pub enum ErrorControl {
    /// Goes on with the system's start.
    Ignore,
    /// Logs the failure and goes on.
    Normal,
    /// Logs the failure and restarts with the last good configuration.
    Severe,
    /// Logs the failure and, failing a restart, stops the system's start.
    Critical,
}

/// What is handed to the supervisor and to the configuration backend to
/// install one service.
#[derive(Debug, Clone, PartialEq, Eq)]
pub struct Registration {
    /// The name under which the service is registered.
    pub name: String,
    /// The name shown to the operator.
    pub display_name: String,
    /// The description shown to the operator.
    pub description: String,
    /// The arguments with which the supervisor starts the program.
    pub launch_args: Vec<String>,
    /// The services that must run before this one.
    pub dependencies: Vec<String>,
    /// When the supervisor starts the service.
    pub start: StartMode,
    /// What the supervisor does when the service fails to start.
    pub error_control: ErrorControl,
    /// The account the service runs under; none means the system account.
    pub account: Option<String>,
    /// The configuration record written for the service.
    pub record: Config,
}

impl Context {
    /// A context in which nothing was asked for: no help, an empty name, no
    /// display name, no description and no dependencies.
    pub open spec fn is_blank(self) -> bool {
        &&& !self.do_help
        &&& self.svcname@ == Seq::<char>::empty()
        &&& self.displayname is None
        &&& self.description is None
        &&& self.deps@ == Seq::<String>::empty()
    }

    /// A context in which nothing was asked for.
    pub fn new() -> (ctx: Context)
        ensures
            ctx.is_blank(),
    {
        Context {
            do_help: false,
            svcname: String::new(),
            displayname: None,
            description: None,
            deps: Vec::new(),
        }
    }
}

impl Default for Context {
    fn default() -> (ctx: Context)
        ensures
            ctx.is_blank(),
    {
        Context::new()
    }
}

impl Registration {
    /// Whether this is the registration that `ctx` asks for: the service
    /// keeps its name, is shown under its display name or else under its
    /// name, is described as asked or else by `DEFAULT_DESCRIPTION`, is
    /// started with `RUN_SUBCOMMAND` and its name, depends on what was
    /// listed, starts with the system under the system account with normal
    /// error control, and gets a record that sets the level to `warn` and no
    /// working directory.
    pub open spec fn fulfils(self, ctx: Context) -> bool {
        &&& self.name == ctx.svcname
        &&& self.display_name == match ctx.displayname {
            Some(shown) => shown,
            None => ctx.svcname,
        }
        &&& self.description@ == match ctx.description {
            Some(text) => text@,
            None => DEFAULT_DESCRIPTION@,
        }
        &&& self.launch_args@.len() == 2
        &&& self.launch_args@[0]@ == RUN_SUBCOMMAND@
        &&& self.launch_args@[1] == ctx.svcname
        &&& self.dependencies == ctx.deps
        &&& self.start == StartMode::Automatic
        &&& self.error_control == ErrorControl::Normal
        &&& self.account is None
        &&& self.record.loglevel matches Some(word) && word@ == LogLevel::Warn.name()
        &&& self.record.workdir is None
    }
}

/// Works out what to register for the service that `ctx` describes.
pub fn plan(ctx: Context) -> (registration: Registration)
    ensures
        registration.fulfils(ctx),
{
    let display_name = match ctx.displayname {
        Some(shown) => shown,
        None => ctx.svcname.clone(),
    };
    let description = match ctx.description {
        Some(text) => text,
        None => String::from_str(DEFAULT_DESCRIPTION),
    };
    let mut launch_args: Vec<String> = Vec::new();
    launch_args.push(String::from_str(RUN_SUBCOMMAND));
    launch_args.push(ctx.svcname.clone());
    Registration {
        name: ctx.svcname,
        display_name,
        description,
        launch_args,
        dependencies: ctx.deps,
        start: StartMode::Automatic,
        error_control: ErrorControl::Normal,
        account: None,
        record: Config { loglevel: Some(String::from_str(LogLevel::Warn.as_str())), workdir: None },
    }
}

/// A service started from a fresh registration logs warnings and errors and
/// stays in the directory in which the supervisor starts it.
pub proof fn fresh_registration_warns(registration: Registration, ctx: Context)
    requires
        registration.fulfils(ctx),
    ensures
        ServiceConfiguration::of_record(registration.record) == (ServiceConfiguration {
            level: LogLevel::Warn,
            work_dir: None,
        }),
{
    LogLevel::Warn.name_round_trip();
}

} // verus!
