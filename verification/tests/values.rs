use svcupdate::command::{exit_code, Subcommand, EXIT_FAILURE, EXIT_SUCCESS};
use svcupdate::config::{
    parameters_path, Config, ConfigLookup, ServiceConfiguration, PARAMETERS_SUBKEY, SERVICES_KEY,
};
use svcupdate::control::{acknowledge, ControlAck, ControlRequest};
use svcupdate::err::Error;
use svcupdate::install::{
    plan, Context, ErrorControl, StartMode, DEFAULT_DESCRIPTION, RUN_SUBCOMMAND,
};
use svcupdate::level::{LogLevel, Severity};
use svcupdate::notice::Notice;
use svcupdate::text::same_text;
use svcupdate::status::{
    LifecycleState, StatusReport, START_PENDING_WAIT_SECS, STOP_PENDING_WAIT_SECS,
};
use svcupdate::uninstall::{after_query, Step, STOP_POLL_SECS};
use svcupdate::workload::{Workload, WorkloadResult, LOG_PATH, PROGRAM, SCRIPT};

fn all_levels() -> Vec<LogLevel> {
    vec![
        LogLevel::Off,
        LogLevel::Error,
        LogLevel::Warn,
        LogLevel::Info,
        LogLevel::Debug,
        LogLevel::Trace,
    ]
}

#[test]
fn every_supported_word_selects_its_level() {
    assert_eq!(LogLevel::from_name("off"), LogLevel::Off);
    assert_eq!(LogLevel::from_name("error"), LogLevel::Error);
    assert_eq!(LogLevel::from_name("warn"), LogLevel::Warn);
    assert_eq!(LogLevel::from_name("info"), LogLevel::Info);
    assert_eq!(LogLevel::from_name("debug"), LogLevel::Debug);
    assert_eq!(LogLevel::from_name("trace"), LogLevel::Trace);
}

#[test]
fn unknown_words_select_error() {
    for word in ["", "DEBUG", "Debug", "verbose", "warning", " info", "info ", "0", "tracee"] {
        assert_eq!(LogLevel::from_name(word), LogLevel::Error);
    }
}

#[test]
fn absent_setting_selects_error() {
    assert_eq!(LogLevel::from_setting(&None), LogLevel::Error);
    assert_eq!(LogLevel::from_setting(&Some("info".to_string())), LogLevel::Info);
    assert_eq!(LogLevel::from_setting(&Some("nonsense".to_string())), LogLevel::Error);
}

#[test]
fn level_words_round_trip() {
    for level in all_levels() {
        assert_eq!(LogLevel::from_name(level.as_str()), level);
    }
    assert_eq!(LogLevel::Warn.as_str(), "warn");
}

#[test]
fn same_text_compares_characters() {
    assert!(same_text("", ""));
    assert!(same_text("abc", "abc"));
    assert!(!same_text("abc", "abd"));
    assert!(!same_text("abc", "ab"));
    assert!(!same_text("abc", "ABC"));
}

#[test]
fn parameters_path_joins_the_three_parts() {
    assert_eq!(SERVICES_KEY, "SYSTEM\\CurrentControlSet\\Services");
    assert_eq!(PARAMETERS_SUBKEY, "Parameters");
    assert_eq!(parameters_path("x"), "SYSTEM\\CurrentControlSet\\Services\\x\\Parameters");
    assert_eq!(parameters_path(""), "SYSTEM\\CurrentControlSet\\Services\\\\Parameters");
    assert_eq!(
        parameters_path("My Service"),
        format!("{}\\{}\\{}", SERVICES_KEY, "My Service", PARAMETERS_SUBKEY)
    );
}

#[test]
fn lookup_outcomes_settle_as_documented() {
    let record = Config { loglevel: Some("trace".to_string()), workdir: Some("D:\\w".to_string()) };
    assert_eq!(
        ServiceConfiguration::from_lookup(ConfigLookup::Found(record.clone())),
        Ok(ServiceConfiguration { level: LogLevel::Trace, work_dir: Some("D:\\w".to_string()) })
    );
    assert_eq!(
        ServiceConfiguration::from_record(record),
        ServiceConfiguration { level: LogLevel::Trace, work_dir: Some("D:\\w".to_string()) }
    );
    assert_eq!(
        ServiceConfiguration::from_lookup(ConfigLookup::Found(Config {
            loglevel: None,
            workdir: None
        })),
        Ok(ServiceConfiguration { level: LogLevel::Error, work_dir: None })
    );
    assert_eq!(
        ServiceConfiguration::from_lookup(ConfigLookup::NotFound),
        Ok(ServiceConfiguration::new())
    );
    assert_eq!(
        ServiceConfiguration::from_lookup(ConfigLookup::Unreachable("denied".to_string())),
        Err(Error::Figment("denied".to_string()))
    );
    assert_eq!(
        ServiceConfiguration::new(),
        ServiceConfiguration { level: LogLevel::Error, work_dir: None }
    );
}

#[test]
fn dispatch_table_is_as_documented() {
    assert_eq!(acknowledge(ControlRequest::Interrogate), ControlAck::NoError);
    assert_eq!(acknowledge(ControlRequest::Stop), ControlAck::NoError);
    assert_eq!(acknowledge(ControlRequest::Pause), ControlAck::NotImplemented);
    assert_eq!(acknowledge(ControlRequest::Continue), ControlAck::NotImplemented);
    assert_eq!(acknowledge(ControlRequest::Other), ControlAck::NotImplemented);
}

#[test]
fn status_records_are_as_documented() {
    assert_eq!(START_PENDING_WAIT_SECS, 30);
    assert_eq!(STOP_PENDING_WAIT_SECS, 30);
    assert_eq!(
        LifecycleState::StartPending.status(),
        StatusReport {
            state: LifecycleState::StartPending,
            accepts_stop: false,
            exit_code: 0,
            checkpoint: 0,
            wait_hint_secs: 30
        }
    );
    assert_eq!(
        LifecycleState::Running.status(),
        StatusReport {
            state: LifecycleState::Running,
            accepts_stop: true,
            exit_code: 0,
            checkpoint: 0,
            wait_hint_secs: 0
        }
    );
    assert_eq!(
        LifecycleState::StopPending.status(),
        StatusReport {
            state: LifecycleState::StopPending,
            accepts_stop: false,
            exit_code: 0,
            checkpoint: 0,
            wait_hint_secs: 30
        }
    );
    assert_eq!(
        LifecycleState::Stopped.status(),
        StatusReport {
            state: LifecycleState::Stopped,
            accepts_stop: false,
            exit_code: 0,
            checkpoint: 0,
            wait_hint_secs: 0
        }
    );
}

#[test]
fn states_follow_one_another() {
    assert_eq!(LifecycleState::StartPending.next(), Some(LifecycleState::Running));
    assert_eq!(LifecycleState::Running.next(), Some(LifecycleState::StopPending));
    assert_eq!(LifecycleState::StopPending.next(), Some(LifecycleState::Stopped));
    assert_eq!(LifecycleState::Stopped.next(), None);
}

#[test]
fn notices_read_as_documented() {
    let cases = vec![
        (Notice::SettingUp, Severity::Debug, "Setting up service"),
        (
            Notice::ControlReceived(ControlRequest::Interrogate),
            Severity::Debug,
            "svc signal recieved: interrogate",
        ),
        (Notice::ControlReceived(ControlRequest::Stop), Severity::Debug, "svc signal recieved: stop"),
        (
            Notice::ControlReceived(ControlRequest::Pause),
            Severity::Debug,
            "svc signal recieved: pause",
        ),
        (
            Notice::ControlReceived(ControlRequest::Continue),
            Severity::Debug,
            "svc signal recieved: continue",
        ),
        (
            Notice::ControlReceived(ControlRequest::Other),
            Severity::Debug,
            "svc signal recieved: other",
        ),
        (Notice::RunningCommand, Severity::Info, "Running command!"),
        (Notice::CommandSucceeded, Severity::Info, "Successfully ran handler script."),
        (
            Notice::CommandFailed("exit status: 2".to_string()),
            Severity::Error,
            "Unable to run handler; exit status: 2",
        ),
        (
            Notice::LogFileUnavailable("denied".to_string()),
            Severity::Error,
            "Unable to open file; denied",
        ),
        (
            Notice::PublishFailed(LifecycleState::Running, "gone".to_string()),
            Severity::Error,
            "Unable to report status; gone",
        ),
        (
            Notice::SupervisorLost(LifecycleState::Stopped, "gone".to_string()),
            Severity::Error,
            "Unable to reach service manager; gone",
        ),
        (Notice::Terminated, Severity::Debug, "service terminated"),
    ];
    for (notice, severity, text) in cases {
        assert_eq!(notice.severity(), severity);
        assert_eq!(notice.to_text(), text);
    }
}

#[test]
fn errors_read_as_documented() {
    let s = |t: &str| t.to_string();
    assert_eq!(Error::ArgParser(s("a")).to_text(), "ArgParser error; a");
    assert_eq!(Error::EventLog(s("b")).to_text(), "EventLog error; b");
    assert_eq!(Error::Figment(s("c")).to_text(), "figment error; c");
    assert_eq!(Error::IO(s("d")).to_text(), "I/O error; d");
    assert_eq!(Error::Registry(s("e")).to_text(), "registry; e");
    assert_eq!(Error::WindowsService(s("f")).to_text(), "windows-service error; f");
    assert_eq!(Error::IO(s("")).to_text(), "I/O error; ");
}

#[test]
fn io_errors_convert_with_their_text() {
    let err = std::io::Error::new(std::io::ErrorKind::Other, "disk on fire");
    let converted = Error::from(err);
    assert_eq!(converted, Error::IO("disk on fire".to_string()));
    assert_eq!(converted.to_text(), "I/O error; disk on fire");
}

#[test]
fn parser_errors_convert_with_their_text() {
    let err: qargparser::ErrKind<()> = qargparser::ErrKind::UnknownOpt("--frob".to_string());
    let converted = Error::from(err);
    assert_eq!(converted, Error::ArgParser("Unknown option; --frob".to_string()));
    assert_eq!(converted.to_text(), "ArgParser error; Unknown option; --frob");
}

#[test]
fn subcommands_are_read_from_their_words() {
    assert_eq!(Subcommand::from_word("install-service"), Ok(Subcommand::Install));
    assert_eq!(Subcommand::from_word("uninstall-service"), Ok(Subcommand::Uninstall));
    assert_eq!(Subcommand::from_word("run-service"), Ok(Subcommand::RunService));
    for word in ["", "install", "Install-Service", "run-service ", "help"] {
        assert_eq!(
            Subcommand::from_word(word),
            Err(Error::ArgParser("Invalid subcommand".to_string()))
        );
    }
    for subcommand in [Subcommand::Install, Subcommand::Uninstall, Subcommand::RunService] {
        assert_eq!(Subcommand::from_word(subcommand.as_str()), Ok(subcommand));
    }
}

#[test]
fn fixed_workload_is_the_handler_script() {
    let workload = Workload::fixed();
    assert_eq!(workload.program, "C:\\Windows\\System32\\WindowsPowerShell\\v1.0\\powershell.exe");
    assert_eq!(workload.program, PROGRAM);
    assert_eq!(
        workload.args,
        vec!["-ExecutionPolicy", "Bypass", "-File", "C:\\Temp\\service.ps1"]
    );
    assert_eq!(workload.args[3], SCRIPT);
    assert_eq!(workload.log_path, "C:\\Temp\\service.log");
    assert_eq!(workload.log_path, LOG_PATH);
}

#[test]
fn exit_code_zero_alone_is_success() {
    assert_eq!(WorkloadResult::from_exit(Some(0), "ok".to_string()), WorkloadResult::Success);
    assert_eq!(
        WorkloadResult::from_exit(Some(1), "exit status: 1".to_string()),
        WorkloadResult::Failure("exit status: 1".to_string())
    );
    assert_eq!(
        WorkloadResult::from_exit(Some(-1), "exit status: -1".to_string()),
        WorkloadResult::Failure("exit status: -1".to_string())
    );
    assert_eq!(
        WorkloadResult::from_exit(None, "signal: 9".to_string()),
        WorkloadResult::Failure("signal: 9".to_string())
    );
    assert!(WorkloadResult::Success.is_success());
    assert!(!WorkloadResult::Failure("x".to_string()).is_success());
}

#[test]
fn blank_install_context_asks_for_nothing() {
    let ctx = Context::new();
    assert!(!ctx.do_help);
    assert_eq!(ctx.svcname, "");
    assert_eq!(ctx.displayname, None);
    assert_eq!(ctx.description, None);
    assert!(ctx.deps.is_empty());
    assert_eq!(Context::default(), ctx);
}

#[test]
fn plan_fills_in_what_was_not_given() {
    let mut ctx = Context::new();
    ctx.svcname = "svcfoo".to_string();
    let registration = plan(ctx);
    assert_eq!(registration.name, "svcfoo");
    assert_eq!(registration.display_name, "svcfoo");
    assert_eq!(registration.description, "Service Wrapper Service");
    assert_eq!(registration.description, DEFAULT_DESCRIPTION);
    assert_eq!(registration.launch_args, vec!["run-service", "svcfoo"]);
    assert_eq!(registration.launch_args[0], RUN_SUBCOMMAND);
    assert!(registration.dependencies.is_empty());
    assert_eq!(registration.start, StartMode::Automatic);
    assert_eq!(registration.error_control, ErrorControl::Normal);
    assert_eq!(registration.account, None);
    assert_eq!(registration.record, Config { loglevel: Some("warn".to_string()), workdir: None });
    assert_eq!(
        ServiceConfiguration::from_record(registration.record),
        ServiceConfiguration { level: LogLevel::Warn, work_dir: None }
    );
}

#[test]
fn plan_keeps_what_was_given() {
    let ctx = Context {
        do_help: false,
        svcname: "svcfoo".to_string(),
        displayname: Some("Foo Service".to_string()),
        description: Some("Runs foo".to_string()),
        deps: vec!["Tcpip".to_string(), "Dnscache".to_string()],
    };
    let registration = plan(ctx);
    assert_eq!(registration.name, "svcfoo");
    assert_eq!(registration.display_name, "Foo Service");
    assert_eq!(registration.description, "Runs foo");
    assert_eq!(registration.launch_args, vec!["run-service", "svcfoo"]);
    assert_eq!(registration.dependencies, vec!["Tcpip", "Dnscache"]);
}

#[test]
fn removal_waits_for_the_stop() {
    assert_eq!(STOP_POLL_SECS, 2);
    assert_eq!(after_query(true), Step::Remove);
    assert_eq!(after_query(false), Step::RequestStop { wait_secs: 2 });
}

#[test]
fn only_an_error_fails_the_program() {
    assert_eq!(EXIT_SUCCESS, 0);
    assert_eq!(EXIT_FAILURE, 1);
    assert_eq!(exit_code(&Ok(())), 0);
    assert_eq!(exit_code(&Err(Error::Figment("denied".to_string()))), 1);
    assert_eq!(exit_code(&Err(Error::IO(String::new()))), 1);
}
