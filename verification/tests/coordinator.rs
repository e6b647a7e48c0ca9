use service_lifecycle::broadcaster::{Receiver, ShutdownSignal};
use service_lifecycle::coordinator::Coordinator;
use service_lifecycle::handle::{HandleStatus, ServiceDescriptor};
use service_lifecycle::model::{Action, Event, Health, Phase, Policy};
use service_lifecycle::outcome::{
    CloseError, InitError, RunReport, ServeExit, ServiceError, ServiceOutcome,
};

fn descriptor(name: &str, address: &str) -> ServiceDescriptor {
    ServiceDescriptor::new(String::from(name), String::from(address))
}

fn two_services(policy: Policy, has_resource: bool) -> Coordinator {
    let mut c = Coordinator::new(policy, has_resource);
    assert_eq!(c.register(descriptor("A", "127.0.0.1:50051")), Some(0));
    assert_eq!(c.register(descriptor("B", "127.0.0.1:8080")), Some(1));
    c
}

fn launch(service: usize) -> Action {
    Action::Launch { service, receiver: Receiver { id: service } }
}

fn notify(id: usize) -> Action {
    Action::Notify { receiver: Receiver { id } }
}

fn finished(service: usize, exit: ServeExit) -> Event {
    Event::ServiceFinished { service, exit }
}

fn ok(name: &str) -> ServiceOutcome {
    ServiceOutcome { name: String::from(name), result: Ok(()) }
}

fn bind_error(name: &str, reason: &str) -> ServiceOutcome {
    ServiceOutcome {
        name: String::from(name),
        result: Err(ServiceError::Bind(String::from(reason))),
    }
}

fn runtime_error(name: &str, reason: &str) -> ServiceOutcome {
    ServiceOutcome {
        name: String::from(name),
        result: Err(ServiceError::Runtime(String::from(reason))),
    }
}

fn started(policy: Policy, has_resource: bool) -> Coordinator {
    let mut c = two_services(policy, has_resource);
    assert_eq!(c.step(Event::Start), vec![Action::InstallSignalHandler]);
    if has_resource {
        assert_eq!(
            c.step(Event::SignalHandlerInstalled(Ok(()))),
            vec![Action::ConnectResource]
        );
        assert_eq!(c.step(Event::ResourceConnected(Ok(()))), vec![launch(0), launch(1)]);
    } else {
        assert_eq!(c.step(Event::SignalHandlerInstalled(Ok(()))), vec![launch(0), launch(1)]);
    }
    assert_eq!(c.phase(), Phase::Running);
    c
}

#[test]
fn new_coordinator_is_idle() {
    let c = Coordinator::new(Policy::best_effort(), true);
    assert_eq!(c.phase(), Phase::Idle);
    assert_eq!(c.service_count(), 0);
    assert!(!c.is_shutting_down());
    assert_eq!(c.report(), None);
    assert_eq!(c.status(0), None);
    assert_eq!(c.descriptor(0), None);
}

#[test]
fn default_policy_is_best_effort() {
    assert_eq!(Policy::default(), Policy::best_effort());
    assert_eq!(
        Policy::best_effort(),
        Policy { fail_fast_on_bind_failure: false, cancel_on_runtime_failure: false }
    );
}

#[test]
fn policy_decides_who_takes_the_others_down() {
    let best = Policy::best_effort();
    assert!(!best.takes_down_on(&ServeExit::Stopped));
    assert!(!best.takes_down_on(&ServeExit::BindFailed(String::from("x"))));
    assert!(!best.takes_down_on(&ServeExit::Failed(String::from("x"))));
    assert!(!best.takes_down_on(&ServeExit::Panicked(String::from("x"))));
    let fast = Policy { fail_fast_on_bind_failure: true, cancel_on_runtime_failure: false };
    assert!(!fast.takes_down_on(&ServeExit::Stopped));
    assert!(fast.takes_down_on(&ServeExit::BindFailed(String::from("x"))));
    assert!(!fast.takes_down_on(&ServeExit::Failed(String::from("x"))));
    let strict = Policy { fail_fast_on_bind_failure: false, cancel_on_runtime_failure: true };
    assert!(!strict.takes_down_on(&ServeExit::BindFailed(String::from("x"))));
    assert!(strict.takes_down_on(&ServeExit::Failed(String::from("x"))));
    assert!(strict.takes_down_on(&ServeExit::Panicked(String::from("x"))));
}

#[test]
fn registration_numbers_services_and_keeps_descriptors() {
    let c = two_services(Policy::best_effort(), false);
    assert_eq!(c.service_count(), 2);
    assert_eq!(c.descriptor(0), Some(&descriptor("A", "127.0.0.1:50051")));
    assert_eq!(c.descriptor(1), Some(&descriptor("B", "127.0.0.1:8080")));
    assert_eq!(c.descriptor(2), None);
}

#[test]
fn registration_closes_when_the_run_starts() {
    let mut c = two_services(Policy::best_effort(), false);
    c.step(Event::Start);
    assert_eq!(c.register(descriptor("C", "127.0.0.1:9000")), None);
    assert_eq!(c.service_count(), 2);
    c.step(Event::SignalHandlerInstalled(Ok(())));
    assert_eq!(c.register(descriptor("C", "127.0.0.1:9000")), None);
    assert_eq!(c.service_count(), 2);
}

#[test]
fn two_services_serve_then_drain_then_close_resource_once() {
    let mut c = started(Policy::best_effort(), true);
    assert_eq!(c.status(0), Some(HandleStatus::Launching));
    assert_eq!(c.health(0), Health::NotServing);
    assert_eq!(c.step(Event::ServiceReady { service: 0 }), vec![]);
    assert_eq!(c.step(Event::ServiceReady { service: 1 }), vec![]);
    assert_eq!(c.status(0), Some(HandleStatus::Serving));
    assert_eq!(c.status(1), Some(HandleStatus::Serving));
    assert_eq!(c.health(0), Health::Serving);
    assert_eq!(c.health(1), Health::Serving);
    assert_eq!(c.phase(), Phase::Running);
    assert!(!c.is_shutting_down());
    assert_eq!(c.receive(&Receiver { id: 0 }), None);
    assert_eq!(c.report(), None);

    assert_eq!(c.step(Event::Signal), vec![notify(0), notify(1)]);
    assert_eq!(c.phase(), Phase::Draining);
    assert!(c.is_shutting_down());
    assert_eq!(c.status(0), Some(HandleStatus::Draining));
    assert_eq!(c.status(1), Some(HandleStatus::Draining));
    assert_eq!(c.health(0), Health::NotServing);
    assert_eq!(c.health(1), Health::NotServing);
    assert_eq!(c.receive(&Receiver { id: 0 }), Some(ShutdownSignal {}));
    assert_eq!(c.receive(&Receiver { id: 1 }), Some(ShutdownSignal {}));
    assert_eq!(c.receive(&Receiver { id: 1 }), None);

    assert_eq!(c.step(finished(1, ServeExit::Stopped)), vec![]);
    assert_eq!(c.status(1), Some(HandleStatus::Finished));
    assert_eq!(c.phase(), Phase::Draining);
    assert_eq!(c.report(), None);

    assert_eq!(c.step(finished(0, ServeExit::Stopped)), vec![Action::CloseResource]);
    assert_eq!(c.phase(), Phase::Draining);
    assert_eq!(c.report(), None);

    assert_eq!(c.step(Event::Signal), vec![]);
    assert_eq!(c.step(finished(0, ServeExit::Stopped)), vec![]);
    assert_eq!(c.step(finished(1, ServeExit::Failed(String::from("late")))), vec![]);

    assert_eq!(c.step(Event::ResourceClosed(Ok(()))), vec![Action::Finish]);
    assert_eq!(c.phase(), Phase::Closed);
    let report = c.report().unwrap();
    assert_eq!(
        report,
        RunReport { outcomes: vec![ok("A"), ok("B")], init_error: None, close_error: None }
    );
    assert_eq!(report.exit_code(), 0);

    assert_eq!(c.step(Event::ResourceClosed(Ok(()))), vec![]);
    assert_eq!(c.step(Event::Signal), vec![]);
    assert_eq!(c.step(Event::Start), vec![]);
    assert_eq!(c.phase(), Phase::Closed);
    assert_eq!(c.report(), Some(report));
}

#[test]
fn bind_failure_of_only_service_closes_without_signal() {
    let mut c = Coordinator::new(Policy::best_effort(), false);
    c.register(descriptor("A", "127.0.0.1:50051"));
    c.step(Event::Start);
    assert_eq!(c.step(Event::SignalHandlerInstalled(Ok(()))), vec![launch(0)]);
    assert_eq!(
        c.step(finished(0, ServeExit::BindFailed(String::from("address in use")))),
        vec![Action::Finish]
    );
    assert_eq!(c.phase(), Phase::Closed);
    assert!(!c.is_shutting_down());
    let report = c.report().unwrap();
    assert_eq!(report.outcomes, vec![bind_error("A", "address in use")]);
    assert_eq!(report.init_error, None);
    assert_eq!(report.exit_code(), 1);
}

#[test]
fn bind_failure_leaves_sibling_running_by_default() {
    let mut c = started(Policy::best_effort(), false);
    assert_eq!(c.step(finished(0, ServeExit::BindFailed(String::from("in use")))), vec![]);
    assert_eq!(c.phase(), Phase::Running);
    assert_eq!(c.status(0), Some(HandleStatus::Finished));
    assert_eq!(c.status(1), Some(HandleStatus::Launching));
    assert_eq!(c.step(Event::ServiceReady { service: 1 }), vec![]);
    assert_eq!(c.step(Event::ServiceReady { service: 0 }), vec![]);
    assert_eq!(c.status(0), Some(HandleStatus::Finished));
    assert_eq!(c.status(1), Some(HandleStatus::Serving));
    assert_eq!(c.health(0), Health::NotServing);
    assert_eq!(c.health(1), Health::Serving);
    assert!(!c.is_shutting_down());
    assert_eq!(c.step(Event::Signal), vec![notify(0), notify(1)]);
    assert_eq!(c.step(finished(1, ServeExit::Stopped)), vec![Action::Finish]);
    let report = c.report().unwrap();
    assert_eq!(report.outcomes, vec![bind_error("A", "in use"), ok("B")]);
    assert_eq!(report.exit_code(), 1);
}

#[test]
fn bind_failure_takes_siblings_down_when_failing_fast() {
    let policy = Policy { fail_fast_on_bind_failure: true, cancel_on_runtime_failure: false };
    let mut c = started(policy, true);
    assert_eq!(
        c.step(finished(1, ServeExit::BindFailed(String::from("denied")))),
        vec![notify(0), notify(1)]
    );
    assert_eq!(c.phase(), Phase::Draining);
    assert!(c.is_shutting_down());
    assert_eq!(c.status(0), Some(HandleStatus::Draining));
    assert_eq!(c.step(Event::Signal), vec![]);
    assert_eq!(c.step(finished(0, ServeExit::Stopped)), vec![Action::CloseResource]);
    assert_eq!(c.step(Event::ResourceClosed(Ok(()))), vec![Action::Finish]);
    let report = c.report().unwrap();
    assert_eq!(report.outcomes, vec![ok("A"), bind_error("B", "denied")]);
    assert_eq!(report.exit_code(), 1);
}

#[test]
fn runtime_failure_is_reported_and_siblings_stay() {
    let mut c = started(Policy::best_effort(), false);
    assert_eq!(c.step(finished(1, ServeExit::Panicked(String::from("overflow")))), vec![]);
    assert_eq!(c.phase(), Phase::Running);
    assert_eq!(c.step(finished(0, ServeExit::Failed(String::from("reset")))), vec![Action::Finish]);
    let report = c.report().unwrap();
    assert_eq!(
        report.outcomes,
        vec![runtime_error("A", "reset"), runtime_error("B", "overflow")]
    );
    assert_eq!(report.exit_code(), 1);
}

#[test]
fn runtime_failure_cancels_siblings_when_configured() {
    let policy = Policy { fail_fast_on_bind_failure: false, cancel_on_runtime_failure: true };
    let mut c = started(policy, false);
    assert_eq!(c.step(finished(0, ServeExit::BindFailed(String::from("in use")))), vec![]);
    assert_eq!(c.phase(), Phase::Running);

    let mut d = started(policy, false);
    assert_eq!(
        d.step(finished(0, ServeExit::Failed(String::from("reset")))),
        vec![notify(0), notify(1)]
    );
    assert_eq!(d.phase(), Phase::Draining);
    assert_eq!(d.step(finished(1, ServeExit::Stopped)), vec![Action::Finish]);
    assert_eq!(d.report().unwrap().outcomes, vec![runtime_error("A", "reset"), ok("B")]);
}

#[test]
fn last_failure_with_cancel_policy_notifies_and_settles_in_one_step() {
    let policy = Policy { fail_fast_on_bind_failure: true, cancel_on_runtime_failure: true };
    let mut c = Coordinator::new(policy, true);
    c.register(descriptor("A", "127.0.0.1:50051"));
    c.step(Event::Start);
    c.step(Event::SignalHandlerInstalled(Ok(())));
    c.step(Event::ResourceConnected(Ok(())));
    assert_eq!(
        c.step(finished(0, ServeExit::Panicked(String::from("boom")))),
        vec![notify(0), Action::CloseResource]
    );
    assert_eq!(c.phase(), Phase::Draining);
}

#[test]
fn failed_resource_connect_closes_with_no_outcomes() {
    let mut c = two_services(Policy::best_effort(), true);
    c.step(Event::Start);
    assert_eq!(c.step(Event::SignalHandlerInstalled(Ok(()))), vec![Action::ConnectResource]);
    assert_eq!(
        c.step(Event::ResourceConnected(Err(String::from("connection refused")))),
        vec![Action::Finish]
    );
    assert_eq!(c.phase(), Phase::Closed);
    assert_eq!(c.status(0), None);
    let report = c.report().unwrap();
    assert_eq!(
        report,
        RunReport {
            outcomes: vec![],
            init_error: Some(InitError::ResourceConnect(String::from("connection refused"))),
            close_error: None,
        }
    );
    assert_eq!(report.exit_code(), 1);
    assert_eq!(c.step(Event::ResourceConnected(Ok(()))), vec![]);
    assert_eq!(c.step(finished(0, ServeExit::Stopped)), vec![]);
    assert_eq!(c.step(Event::Signal), vec![]);
    assert_eq!(c.report(), Some(report));
}

#[test]
fn failed_signal_handler_closes_before_connecting() {
    let mut c = two_services(Policy::best_effort(), true);
    c.step(Event::Start);
    assert_eq!(
        c.step(Event::SignalHandlerInstalled(Err(String::from("not permitted")))),
        vec![Action::Finish]
    );
    assert_eq!(c.phase(), Phase::Closed);
    let report = c.report().unwrap();
    assert_eq!(report.outcomes, vec![]);
    assert_eq!(
        report.init_error,
        Some(InitError::SignalHandlerInstall(String::from("not permitted")))
    );
    assert_eq!(report.exit_code(), 1);
}

#[test]
fn signal_before_launch_is_seen_by_every_service() {
    let mut c = two_services(Policy::best_effort(), true);
    c.step(Event::Start);
    c.step(Event::SignalHandlerInstalled(Ok(())));
    assert_eq!(c.step(Event::Signal), vec![]);
    assert_eq!(c.phase(), Phase::Starting);
    assert!(c.is_shutting_down());
    assert_eq!(c.step(Event::ResourceConnected(Ok(()))), vec![launch(0), launch(1)]);
    assert_eq!(c.phase(), Phase::Draining);
    assert_eq!(c.status(0), Some(HandleStatus::Draining));
    assert_eq!(c.status(1), Some(HandleStatus::Draining));
    assert_eq!(c.receive(&Receiver { id: 0 }), Some(ShutdownSignal {}));
    assert_eq!(c.receive(&Receiver { id: 1 }), Some(ShutdownSignal {}));
    assert_eq!(c.step(finished(0, ServeExit::Stopped)), vec![]);
    assert_eq!(c.step(finished(1, ServeExit::Stopped)), vec![Action::CloseResource]);
    assert_eq!(c.step(Event::ResourceClosed(Ok(()))), vec![Action::Finish]);
    assert_eq!(c.report().unwrap().exit_code(), 0);
}

#[test]
fn signal_without_handler_is_ignored() {
    let mut c = two_services(Policy::best_effort(), false);
    assert_eq!(c.step(Event::Signal), vec![]);
    c.step(Event::Start);
    assert_eq!(c.step(Event::Signal), vec![]);
    assert!(!c.is_shutting_down());
    assert_eq!(c.phase(), Phase::Starting);
}

#[test]
fn duplicate_signals_change_nothing() {
    let mut c = started(Policy::best_effort(), true);
    assert_eq!(c.step(Event::Signal), vec![notify(0), notify(1)]);
    assert_eq!(c.step(Event::Signal), vec![]);
    assert_eq!(c.step(Event::Signal), vec![]);
    assert_eq!(c.phase(), Phase::Draining);
    assert_eq!(c.step(finished(0, ServeExit::Stopped)), vec![]);
    assert_eq!(c.step(Event::Signal), vec![]);
    assert_eq!(c.step(finished(1, ServeExit::Stopped)), vec![Action::CloseResource]);
    assert_eq!(c.step(Event::Signal), vec![]);
    assert_eq!(c.step(Event::ResourceClosed(Ok(()))), vec![Action::Finish]);
    assert_eq!(c.step(Event::Signal), vec![]);
}

#[test]
fn close_error_is_reported_and_exit_code_stays_zero() {
    let mut c = started(Policy::best_effort(), true);
    c.step(Event::Signal);
    c.step(finished(0, ServeExit::Stopped));
    c.step(finished(1, ServeExit::Stopped));
    let error = CloseError { reason: String::from("flush failed") };
    assert_eq!(c.step(Event::ResourceClosed(Err(error.clone()))), vec![Action::Finish]);
    let report = c.report().unwrap();
    assert_eq!(report.close_error, Some(error));
    assert_eq!(report.outcomes, vec![ok("A"), ok("B")]);
    assert_eq!(report.exit_code(), 0);
}

#[test]
fn events_out_of_turn_are_ignored() {
    let mut c = two_services(Policy::best_effort(), true);
    assert_eq!(c.step(Event::SignalHandlerInstalled(Ok(()))), vec![]);
    assert_eq!(c.step(Event::ResourceConnected(Ok(()))), vec![]);
    assert_eq!(c.step(finished(0, ServeExit::Stopped)), vec![]);
    assert_eq!(c.step(Event::ResourceClosed(Ok(()))), vec![]);
    assert_eq!(c.phase(), Phase::Idle);
    c.step(Event::Start);
    assert_eq!(c.step(Event::Start), vec![]);
    assert_eq!(c.step(Event::ResourceConnected(Ok(()))), vec![]);
    assert_eq!(c.phase(), Phase::Starting);
    c.step(Event::SignalHandlerInstalled(Ok(())));
    assert_eq!(c.step(Event::SignalHandlerInstalled(Err(String::from("again")))), vec![]);
    assert_eq!(c.phase(), Phase::Starting);
    c.step(Event::ResourceConnected(Ok(())));
    assert_eq!(c.step(Event::ResourceConnected(Err(String::from("again")))), vec![]);
    assert_eq!(c.step(Event::ResourceClosed(Ok(()))), vec![]);
    assert_eq!(c.step(finished(2, ServeExit::Stopped)), vec![]);
    assert_eq!(c.phase(), Phase::Running);
    assert_eq!(c.report(), None);
}

#[test]
fn run_without_services_closes_at_once() {
    let mut c = Coordinator::new(Policy::best_effort(), false);
    c.step(Event::Start);
    assert_eq!(c.step(Event::SignalHandlerInstalled(Ok(()))), vec![Action::Finish]);
    assert_eq!(c.phase(), Phase::Closed);
    assert_eq!(
        c.report(),
        Some(RunReport { outcomes: vec![], init_error: None, close_error: None })
    );

    let mut d = Coordinator::new(Policy::best_effort(), true);
    d.step(Event::Start);
    d.step(Event::SignalHandlerInstalled(Ok(())));
    assert_eq!(d.step(Event::ResourceConnected(Ok(()))), vec![Action::CloseResource]);
    assert_eq!(d.phase(), Phase::Draining);
    assert_eq!(d.step(Event::ResourceClosed(Ok(()))), vec![Action::Finish]);
    assert_eq!(d.report().unwrap().exit_code(), 0);
}

fn report_for_arrival_order(order: &[usize]) -> RunReport {
    let mut c = Coordinator::new(Policy::best_effort(), true);
    c.register(descriptor("A", "127.0.0.1:1"));
    c.register(descriptor("B", "127.0.0.1:2"));
    c.register(descriptor("C", "127.0.0.1:3"));
    c.step(Event::Start);
    c.step(Event::SignalHandlerInstalled(Ok(())));
    assert_eq!(c.step(Event::ResourceConnected(Ok(()))), vec![launch(0), launch(1), launch(2)]);
    c.step(Event::Signal);
    let mut closes = 0;
    for &service in order {
        let exit = if service == 1 {
            ServeExit::Failed(String::from("reset"))
        } else {
            ServeExit::Stopped
        };
        for action in c.step(finished(service, exit)) {
            if action == Action::CloseResource {
                closes += 1;
            }
        }
    }
    assert_eq!(closes, 1);
    assert_eq!(c.step(Event::ResourceClosed(Ok(()))), vec![Action::Finish]);
    c.report().unwrap()
}

#[test]
fn report_has_one_outcome_per_service_in_any_arrival_order() {
    let expected = RunReport {
        outcomes: vec![ok("A"), runtime_error("B", "reset"), ok("C")],
        init_error: None,
        close_error: None,
    };
    assert_eq!(report_for_arrival_order(&[0, 1, 2]), expected);
    assert_eq!(report_for_arrival_order(&[0, 2, 1]), expected);
    assert_eq!(report_for_arrival_order(&[1, 0, 2]), expected);
    assert_eq!(report_for_arrival_order(&[1, 2, 0]), expected);
    assert_eq!(report_for_arrival_order(&[2, 0, 1]), expected);
    assert_eq!(report_for_arrival_order(&[2, 1, 0]), expected);
    assert_eq!(report_for_arrival_order(&[2, 2, 1, 0, 1, 0]), expected);
    assert_eq!(expected.outcomes.len(), 3);
    assert_eq!(expected.exit_code(), 1);
}

#[test]
fn health_is_unknown_until_launch_and_serving_only_when_bound() {
    let mut c = two_services(Policy::best_effort(), false);
    assert_eq!(c.health(0), Health::Unknown);
    assert_eq!(c.step(Event::ServiceReady { service: 0 }), vec![]);
    assert_eq!(c.health(0), Health::Unknown);
    c.step(Event::Start);
    assert_eq!(c.health(1), Health::Unknown);
    c.step(Event::SignalHandlerInstalled(Ok(())));
    assert_eq!(c.health(0), Health::NotServing);
    assert_eq!(c.health(1), Health::NotServing);
    assert_eq!(c.health(2), Health::Unknown);
    c.step(Event::ServiceReady { service: 1 });
    assert_eq!(c.health(0), Health::NotServing);
    assert_eq!(c.health(1), Health::Serving);
    c.step(Event::ServiceReady { service: 2 });
    assert_eq!(c.health(2), Health::Unknown);
    c.step(Event::Signal);
    assert_eq!(c.health(1), Health::NotServing);
    assert_eq!(c.status(0), Some(HandleStatus::Draining));
    c.step(Event::ServiceReady { service: 0 });
    assert_eq!(c.status(0), Some(HandleStatus::Draining));
    assert_eq!(c.health(0), Health::NotServing);
}

#[test]
fn resource_is_released_once_across_a_whole_run() {
    let policy = Policy { fail_fast_on_bind_failure: true, cancel_on_runtime_failure: true };
    let mut c = started(policy, true);
    let events = vec![
        Event::Signal,
        Event::Signal,
        finished(0, ServeExit::Failed(String::from("reset"))),
        Event::Signal,
        finished(0, ServeExit::Stopped),
        finished(1, ServeExit::BindFailed(String::from("in use"))),
        Event::Signal,
        finished(1, ServeExit::Stopped),
        Event::ResourceConnected(Ok(())),
        Event::Signal,
        Event::ResourceClosed(Ok(())),
        Event::ResourceClosed(Ok(())),
        finished(0, ServeExit::Stopped),
        Event::Signal,
    ];
    let mut releases = 0;
    let mut finishes = 0;
    for event in events {
        for action in c.step(event) {
            match action {
                Action::CloseResource => releases += 1,
                Action::Finish => finishes += 1,
                _ => {}
            }
        }
    }
    assert_eq!(releases, 1);
    assert_eq!(finishes, 1);
    assert_eq!(c.phase(), Phase::Closed);
    assert_eq!(
        c.report().unwrap().outcomes,
        vec![runtime_error("A", "reset"), bind_error("B", "in use")]
    );
}

#[test]
fn resource_events_are_ignored_without_a_resource() {
    let mut c = two_services(Policy::best_effort(), false);
    c.step(Event::Start);
    assert_eq!(c.step(Event::ResourceConnected(Ok(()))), vec![]);
    assert_eq!(c.step(Event::ResourceConnected(Err(String::from("refused")))), vec![]);
    assert_eq!(c.phase(), Phase::Starting);
    assert_eq!(c.step(Event::SignalHandlerInstalled(Ok(()))), vec![launch(0), launch(1)]);
    assert_eq!(c.step(Event::ResourceClosed(Ok(()))), vec![]);
    c.step(Event::Signal);
    assert_eq!(c.step(Event::ResourceClosed(Ok(()))), vec![]);
    assert_eq!(c.phase(), Phase::Draining);
    c.step(finished(0, ServeExit::Stopped));
    assert_eq!(c.step(finished(1, ServeExit::Stopped)), vec![Action::Finish]);
    assert_eq!(c.report().unwrap().close_error, None);
}

#[test]
fn expects_says_which_events_are_called_for() {
    let mut c = two_services(Policy::best_effort(), true);
    assert!(c.expects(&Event::Start));
    assert!(!c.expects(&Event::Signal));
    assert!(!c.expects(&Event::SignalHandlerInstalled(Ok(()))));
    assert!(!c.expects(&Event::ResourceConnected(Ok(()))));
    assert!(!c.expects(&Event::ServiceReady { service: 0 }));
    assert!(!c.expects(&finished(0, ServeExit::Stopped)));
    assert!(!c.expects(&Event::ResourceClosed(Ok(()))));

    c.step(Event::Start);
    assert!(!c.expects(&Event::Start));
    assert!(c.expects(&Event::SignalHandlerInstalled(Err(String::from("x")))));
    assert!(!c.expects(&Event::ResourceConnected(Ok(()))));
    assert!(!c.expects(&Event::Signal));

    c.step(Event::SignalHandlerInstalled(Ok(())));
    assert!(!c.expects(&Event::SignalHandlerInstalled(Ok(()))));
    assert!(c.expects(&Event::ResourceConnected(Err(String::from("x")))));
    assert!(c.expects(&Event::Signal));
    assert!(!c.expects(&finished(0, ServeExit::Stopped)));

    c.step(Event::ResourceConnected(Ok(())));
    assert!(!c.expects(&Event::ResourceConnected(Ok(()))));
    assert!(c.expects(&Event::Signal));
    assert!(c.expects(&Event::ServiceReady { service: 1 }));
    assert!(!c.expects(&Event::ServiceReady { service: 2 }));
    assert!(c.expects(&finished(1, ServeExit::Stopped)));
    assert!(!c.expects(&finished(2, ServeExit::Stopped)));
    assert!(!c.expects(&Event::ResourceClosed(Ok(()))));

    c.step(Event::Signal);
    assert!(!c.expects(&Event::Signal));
    c.step(finished(1, ServeExit::Stopped));
    assert!(!c.expects(&finished(1, ServeExit::Stopped)));
    assert!(c.expects(&Event::ServiceReady { service: 1 }));
    assert!(c.expects(&finished(0, ServeExit::Stopped)));
    c.step(finished(0, ServeExit::Stopped));
    assert!(c.expects(&Event::ResourceClosed(Ok(()))));
    assert!(!c.expects(&finished(0, ServeExit::Stopped)));

    c.step(Event::ResourceClosed(Ok(())));
    assert!(!c.expects(&Event::ResourceClosed(Ok(()))));
    assert!(!c.expects(&Event::Start));
    assert!(!c.expects(&Event::Signal));
    assert!(!c.expects(&Event::ServiceReady { service: 0 }));
}
