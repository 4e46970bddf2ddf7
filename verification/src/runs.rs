//! What holds of every activation, whatever the operating system answers.

use vstd::prelude::*;
use crate::config::{ConfigLookup, ServiceConfiguration};
use crate::control::{ack_of, ControlAck, ControlRequest};
use crate::service::{Action, Event, Phase, Runtime};
use crate::status::{activation_order, LifecycleState};
use crate::workload::WorkloadResult;

verus! {

/// Whether an event is one of the two answers to a status report.
pub open spec fn answers_report(event: Event) -> bool {
    event is Published || event is PublishFailed
}

/// One more event extends a run by one transition: the state moves on by it,
/// its action is issued last, and its report, if it makes one, is handed over
/// last.
pub proof fn run_extends(start: Runtime, events: Seq<Event>, event: Event)
    ensures
        start.run(events.push(event)) == start.run(events).transition(event).state,
        start.issued(events.push(event)) == start.issued(events).push(
            start.run(events).transition(event).action,
        ),
        start.reported(events.push(event)) == match start.run(events).transition(event).action {
            Action::Report(record) => start.reported(events).push(record.state),
            _ => start.reported(events),
        },
{
    assert(events.push(event).drop_last() =~= events);
    assert(events.push(event).last() == event);
}

/// Exactly the events that answer the pending action move the runtime; any
/// other event leaves it where it is and is answered with `Action::Nothing`.
pub proof fn only_answers_move(state: Runtime, event: Event)
    ensures
        !state.expects(event) ==> state.transition(event) == state.unmoved(),
        state.expects(event) ==> state.transition(event).action != Action::Nothing,
        state.phase.is_over() ==> !state.expects(event),
{
}

/// An activation is a single pass: every event that answers the pending
/// action takes the activation further, so no action is ever asked for a
/// second time, and at most ten events are answered before it is over.
pub proof fn every_answer_advances(state: Runtime, event: Event)
    ensures
        state.expects(event) ==> state.transition(event).state.phase.progress()
            > state.phase.progress(),
        state.phase.progress() <= 10,
        state.phase.is_over() <==> state.phase.progress() == 10,
{
}

/// The result of the workload's run is known exactly from the moment the stop
/// is reported: this holds at the start and every transition keeps it.
pub proof fn transition_keeps_wf(state: Runtime, event: Event)
    ensures
        Runtime::initial().wf(),
        state.wf() ==> state.transition(event).state.wf(),
{
}

/// The invariant holds at every point of every activation; so the result of
/// the workload's run is known in every activation that ran to its end.
pub proof fn run_keeps_wf(events: Seq<Event>)
    ensures
        Runtime::initial().run(events).wf(),
        Runtime::initial().run(events).phase == Phase::Finished ==> Runtime::initial().run(
            events,
        ).result is Some,
    decreases events.len(),
{
    if events.len() > 0 {
        run_keeps_wf(events.drop_last());
        transition_keeps_wf(Runtime::initial().run(events.drop_last()), events.last());
    }
}

/// The command is run at most once in an activation, whatever the events:
/// the driver is asked for it only when the file for its output has just
/// been opened, and never again after that.
pub proof fn command_runs_at_most_once(events: Seq<Event>)
    ensures
        Runtime::initial().command_runs(events) <= 1,
        !Runtime::initial().run(events).phase.past_opening() ==> Runtime::initial().command_runs(
            events,
        ) == 0,
    decreases events.len(),
{
    if events.len() > 0 {
        command_runs_at_most_once(events.drop_last());
    }
}

/// The lifecycle only moves forward, and by one state at a time: a
/// transition issues a report exactly when it moves the lifecycle, and the
/// report is that of the next state in `activation_order`.
pub proof fn lifecycle_moves_forward(state: Runtime, event: Event)
    ensures
        match state.transition(event).action {
            Action::Report(record) => {
                &&& record == record.state.report()
                &&& record.state == activation_order()[state.phase.reports_made() as int]
                &&& state.transition(event).state.phase.reports_made() == state.phase.reports_made()
                    + 1
            },
            _ => state.transition(event).state.phase.reports_made()
                == state.phase.reports_made(),
        },
        state.phase.reports_made() <= 4,
{
}

/// Whatever the events, the states reported so far are the first states of
/// `activation_order`, as many as the phase reached accounts for: none is
/// repeated, none is left out and none comes out of turn.
pub proof fn reports_are_a_prefix(events: Seq<Event>)
    ensures
        Runtime::initial().reported(events) == activation_order().subrange(
            0,
            Runtime::initial().run(events).phase.reports_made() as int,
        ),
    decreases events.len(),
{
    let start = Runtime::initial();
    if events.len() == 0 {
        assert(start.reported(events) =~= activation_order().subrange(0, 0));
    } else {
        let earlier = events.drop_last();
        reports_are_a_prefix(earlier);
        lifecycle_moves_forward(start.run(earlier), events.last());
        let made = start.run(earlier).phase.reports_made() as int;
        if start.run(earlier).transition(events.last()).action is Report {
            assert(activation_order().subrange(0, made).push(activation_order()[made])
                =~= activation_order().subrange(0, made + 1));
        }
    }
}

/// An activation that runs to its end has reported `StartPending`,
/// `Running`, `StopPending` and `Stopped`, each once and in this order,
/// whatever the events that led there: however the workload's run ended and
/// whether or not the supervisor took each report.
pub proof fn finished_activation_reports_all(events: Seq<Event>)
    requires
        Runtime::initial().run(events).phase == Phase::Finished,
    ensures
        Runtime::initial().reported(events) == activation_order(),
{
    reports_are_a_prefix(events);
    assert(activation_order().subrange(0, 4) =~= activation_order());
}

/// An activation whose start failed has reported no state at all: a failure
/// of the backend, of the system log, of the change of directory or of the
/// registration comes before the first report.
pub proof fn failed_start_reports_nothing(events: Seq<Event>)
    requires
        Runtime::initial().run(events).phase == Phase::Failed,
    ensures
        Runtime::initial().reported(events) == Seq::<LifecycleState>::empty(),
{
    reports_are_a_prefix(events);
    assert(activation_order().subrange(0, 0) =~= Seq::<LifecycleState>::empty());
}

/// While the service is running, a request other than a stop is answered as
/// the dispatch table says (`NoError` for an interrogation, `NotImplemented`
/// for the rest) and the runtime, its lifecycle state included, stays as it
/// was.
pub proof fn request_leaves_running_state(state: Runtime, request: ControlRequest)
    requires
        state.lifecycle() == Some(LifecycleState::Running),
        request != ControlRequest::Stop,
    ensures
        state.after_control(request) == state,
        state.after_control(request).lifecycle() == Some(LifecycleState::Running),
        ack_of(request) == if request == ControlRequest::Interrogate {
            ControlAck::NoError
        } else {
            ControlAck::NotImplemented
        },
{
}

/// If the file for the command's output cannot be opened, the workload's
/// result is a failure that carries the reason, the command is never
/// started, and once the two remaining reports are answered the activation
/// has ended with `Stopped` as the last state reported.
pub proof fn unopened_log_skips_command(state: Runtime, why: String, first: Event, second: Event)
    requires
        state.phase == Phase::OpeningLog,
        answers_report(first),
        answers_report(second),
    ensures
        state.transition(Event::LogOpenFailed(why)).state.result == Some(
            WorkloadResult::Failure(why),
        ),
        state.issued(seq![Event::LogOpenFailed(why), first, second]) == seq![
            Action::Report(LifecycleState::StopPending.report()),
            Action::Report(LifecycleState::Stopped.report()),
            Action::Finish,
        ],
        state.run(seq![Event::LogOpenFailed(why), first, second]).phase == Phase::Finished,
        state.run(seq![Event::LogOpenFailed(why), first, second]).lifecycle() == Some(
            LifecycleState::Stopped,
        ),
{
    let failed = Event::LogOpenFailed(why);
    let none = Seq::<Event>::empty();
    run_extends(state, none, failed);
    run_extends(state, none.push(failed), first);
    run_extends(state, none.push(failed).push(first), second);
    assert(seq![failed, first, second] =~= none.push(failed).push(first).push(second));
    assert(state.issued(seq![failed, first, second]) =~= seq![
        Action::Report(LifecycleState::StopPending.report()),
        Action::Report(LifecycleState::Stopped.report()),
        Action::Finish,
    ]);
}

/// If the configuration holds no working directory, whether because the
/// record lacks it or because there is no record, the step after the set-up
/// of logging is the registration: no change of directory is asked for.
pub proof fn absent_workdir_goes_to_registration(lookup: ConfigLookup)
    requires
        ServiceConfiguration::of_lookup(lookup) is Ok,
        ServiceConfiguration::of_lookup(lookup)->Ok_0.work_dir is None,
    ensures
        Runtime::initial().issued(seq![Event::ConfigLoaded(lookup), Event::LoggingReady]) == seq![
            Action::InitLogging { level: ServiceConfiguration::of_lookup(lookup)->Ok_0.level },
            Action::Register,
        ],
        Runtime::initial().run(seq![Event::ConfigLoaded(lookup), Event::LoggingReady]).phase
            == Phase::Registering,
{
    let start = Runtime::initial();
    let none = Seq::<Event>::empty();
    let loaded = Event::ConfigLoaded(lookup);
    run_extends(start, none, loaded);
    run_extends(start, none.push(loaded), Event::LoggingReady);
    assert(seq![loaded, Event::LoggingReady] =~= none.push(loaded).push(Event::LoggingReady));
    assert(start.issued(seq![loaded, Event::LoggingReady]) =~= seq![
        Action::InitLogging { level: ServiceConfiguration::of_lookup(lookup)->Ok_0.level },
        Action::Register,
    ]);
}

/// When the supervisor cannot be reached with a report, the activation ends
/// at once with the reason as a supervisor error, nothing further is
/// reported, and the state that could not be reported stays the current one.
pub proof fn lost_supervisor_ends_activation(
    state: Runtime,
    pending: LifecycleState,
    why: String,
    later: Event,
)
    requires
        state.phase == Phase::Publishing(pending),
    ensures
        state.transition(Event::SupervisorLost(why)).action == Action::Abort(
            crate::err::Error::WindowsService(why),
        ),
        state.transition(Event::SupervisorLost(why)).state.phase.is_over(),
        state.transition(Event::SupervisorLost(why)).state.lifecycle() == Some(pending),
        state.transition(Event::SupervisorLost(why)).state.transition(later).action
            == Action::Nothing,
{
}

/// A change of directory is asked for only with the directory that the
/// configuration holds.
pub proof fn directory_change_needs_workdir(state: Runtime, event: Event)
    ensures
        state.transition(event).action matches Action::ChangeDir { path }
            ==> state.config.work_dir == Some(path),
{
}

/// A backend that cannot be asked stops the start at once: the activation
/// ends with the backend's text as a configuration error, and no further
/// event makes it report a state.
pub proof fn unreachable_backend_is_fatal(why: String, later: Seq<Event>)
    ensures
        Runtime::initial().transition(Event::ConfigLoaded(ConfigLookup::Unreachable(why))).action
            == Action::Abort(crate::err::Error::Figment(why)),
        Runtime::initial().run(
            seq![Event::ConfigLoaded(ConfigLookup::Unreachable(why))] + later,
        ).phase == Phase::Failed,
        Runtime::initial().reported(
            seq![Event::ConfigLoaded(ConfigLookup::Unreachable(why))] + later,
        ) == Seq::<LifecycleState>::empty(),
    decreases later.len(),
{
    let start = Runtime::initial();
    let first = Event::ConfigLoaded(ConfigLookup::Unreachable(why));
    let none = Seq::<Event>::empty();
    if later.len() == 0 {
        run_extends(start, none, first);
        assert(seq![first] + later =~= none.push(first));
        assert(start.run(none) == start);
    } else {
        unreachable_backend_is_fatal(why, later.drop_last());
        run_extends(start, seq![first] + later.drop_last(), later.last());
        assert((seq![first] + later.drop_last()).push(later.last()) =~= seq![first] + later);
    }
    failed_start_reports_nothing(seq![first] + later);
}

} // verus!
