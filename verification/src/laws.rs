//! What holds of every run, proved about the state machine.

use vstd::prelude::*;
use crate::broadcaster::Receiver;
use crate::guard::GuardState;
use crate::handle::{HandleStatus, ServiceDescriptor, ServiceHandle};
use crate::model::{Action, CoordinatorState, Event, Health, Phase, Policy};
use crate::outcome::{CloseError, ServeExit, ServiceError, ServiceOutcome};

verus! {

/// A new coordinator is well formed.
pub proof fn law_initial_is_wf(policy: Policy, has_resource: bool)
    ensures
        CoordinatorState::initial(policy, has_resource).wf(),
{
}

/// Registering a service keeps a coordinator well formed, as long as the
/// services can still be counted in a machine word.
pub proof fn law_register_preserves_wf(s: CoordinatorState, descriptor: ServiceDescriptor)
    requires
        s.wf(),
        s.descriptors.len() < usize::MAX,
    ensures
        s.register(descriptor).wf(),
{
}

/// Handing the shutdown event to a subscriber keeps a coordinator well
/// formed.
pub proof fn law_receive_preserves_wf(s: CoordinatorState, id: int)
    requires
        s.wf(),
    ensures
        s.receive(id).wf(),
{
    lemma_same_finished(s, s.receive(id));
}

/// No event changes the registered services or the policy.
pub proof fn law_descriptors_are_fixed(s: CoordinatorState, event: Event)
    ensures
        s.step(event).0.descriptors == s.descriptors,
        s.step(event).0.policy == s.policy,
{
}

/// Two states whose handles agree, one by one, on whether they are finished
/// agree on whether all are.
proof fn lemma_same_finished(s: CoordinatorState, t: CoordinatorState)
    requires
        t.handles.len() == s.handles.len(),
        forall|i: int|
            0 <= i < s.handles.len() ==> (#[trigger] t.handles[i]).finished()
                == s.handles[i].finished(),
    ensures
        t.all_finished() == s.all_finished(),
{
    if t.all_finished() {
        assert forall|i: int| 0 <= i < s.handles.len() implies (
        #[trigger] s.handles[i]).finished() by {
            assert(t.handles[i].finished());
        }
    }
}

/// A finished handle has its outcome: where all are finished, all are
/// reported.
proof fn lemma_finished_handles_are_reported(s: CoordinatorState)
    requires
        s.structured(),
        s.all_finished(),
    ensures
        s.all_reported(),
{
}

/// Settling keeps the invariant: while a service is out nothing changes, and
/// after the last one the run is closing or closed.
proof fn lemma_settle_is_wf(s: CoordinatorState)
    requires
        s.serving(),
    ensures
        s.settle().0.wf(),
{
}

/// Announcing the shutdown while the services are out leaves them out, in the
/// draining phase.
proof fn lemma_shutdown_keeps_serving(s: CoordinatorState)
    requires
        s.serving(),
    ensures
        s.shutdown().0.serving(),
        s.shutdown().0.all_finished() == s.all_finished(),
{
    let t = s.shutdown().0;
    if !s.broadcaster.fired {
        lemma_same_finished(s, t);
    }
}

/// Announcing the shutdown keeps the invariant in every phase in which a
/// termination request is heeded.
proof fn lemma_shutdown_is_wf(s: CoordinatorState)
    requires
        s.wf(),
        s.phase == Phase::Starting || s.phase == Phase::Running || s.phase == Phase::Draining,
    ensures
        s.shutdown().0.wf(),
{
    if s.phase != Phase::Starting && s.guard.state != GuardState::Closing {
        lemma_shutdown_keeps_serving(s);
    }
}

/// Launching keeps the invariant.
proof fn lemma_launch_is_wf(s: CoordinatorState)
    requires
        s.structured(),
        s.phase == Phase::Starting,
        s.handles.len() == 0,
        s.init_error is None,
        s.guard.state == GuardState::Absent || s.guard.state == GuardState::Connected,
    ensures
        s.launch().0.wf(),
{
    lemma_settle_is_wf(s.started());
}

/// Recording the return of a service keeps the invariant.
proof fn lemma_finish_service_is_wf(s: CoordinatorState, service: int, exit: ServeExit)
    requires
        s.wf(),
        s.awaits(service),
    ensures
        s.finish_service(service, exit).0.wf(),
{
    let recorded = s.recorded_return(service, exit);
    if s.policy.cancels_on(exit) {
        lemma_shutdown_keeps_serving(recorded);
        lemma_settle_is_wf(recorded.shutdown().0);
    } else {
        lemma_settle_is_wf(recorded);
    }
}

/// Recording that a service is bound keeps the invariant.
proof fn lemma_ready_is_wf(s: CoordinatorState, service: int)
    requires
        s.wf(),
        s.hears(service),
    ensures
        s.step(Event::ServiceReady { service: service as usize }).0.wf(),
{
    let t = s.step(Event::ServiceReady { service: service as usize }).0;
    lemma_same_finished(s, t);
}

/// Every event keeps a coordinator well formed.
pub proof fn law_step_preserves_wf(s: CoordinatorState, event: Event)
    requires
        s.wf(),
    ensures
        s.step(event).0.wf(),
{
    match event {
        Event::Start => {},
        Event::SignalHandlerInstalled(result) => {
            if s.expects(event) && result is Ok && s.guard.state != GuardState::Disconnected {
                lemma_launch_is_wf(CoordinatorState { signal: s.signal.arm(), ..s });
            }
        },
        Event::ResourceConnected(result) => {
            if s.expects(event) && result is Ok {
                lemma_launch_is_wf(CoordinatorState { guard: s.guard.connect(), ..s });
            }
        },
        Event::Signal => {
            if s.expects(event) {
                lemma_shutdown_is_wf(CoordinatorState { signal: s.signal.deliver(), ..s });
            }
        },
        Event::ServiceReady { service } => {
            if s.expects(event) {
                lemma_ready_is_wf(s, service as int);
            }
        },
        Event::ServiceFinished { service, exit } => {
            if s.expects(event) {
                lemma_finish_service_is_wf(s, service as int, exit);
            }
        },
        Event::ResourceClosed(result) => {},
    }
}

/// A run keeps a coordinator well formed, whatever the events and their
/// order.
pub proof fn law_run_preserves_wf(s: CoordinatorState, events: Seq<Event>)
    requires
        s.wf(),
    ensures
        s.run(events).wf(),
    decreases events.len(),
{
    if events.len() > 0 {
        law_step_preserves_wf(s, events[0]);
        law_run_preserves_wf(s.step(events[0]).0, events.skip(1));
    }
}

/// A run never changes the registered services.
pub proof fn law_run_keeps_descriptors(s: CoordinatorState, events: Seq<Event>)
    ensures
        s.run(events).descriptors == s.descriptors,
        s.run(events).policy == s.policy,
    decreases events.len(),
{
    if events.len() > 0 {
        law_descriptors_are_fixed(s, events[0]);
        law_run_keeps_descriptors(s.step(events[0]).0, events.skip(1));
    }
}

/// The report of a closed run is complete. If the start went through, it
/// holds exactly one outcome for each registered service, at the service's
/// position and under its name. If the start was given up, it holds none.
pub proof fn law_closed_report_is_complete(s: CoordinatorState)
    requires
        s.wf(),
        s.phase == Phase::Closed,
    ensures
        s.reportable(),
        s.init_error is None ==> {
            &&& s.outcomes().len() == s.descriptors.len()
            &&& forall|i: int|
                0 <= i < s.descriptors.len() ==> (#[trigger] s.outcomes()[i]).name
                    == s.descriptors[i].name
        },
        s.init_error is Some ==> s.outcomes().len() == 0,
{
    lemma_finished_handles_are_reported(s);
}

/// Whatever events arrive and in whatever order: when the run is closed its
/// report can be collected. If the start went through, the report holds
/// exactly one outcome for each registered service, at the service's
/// position and under its name. If the start was given up, it holds none.
pub proof fn law_report_has_one_outcome_per_service(s: CoordinatorState, events: Seq<Event>)
    requires
        s.wf(),
    ensures
        ({
            let end = s.run(events);
            &&& end.descriptors == s.descriptors
            &&& end.phase == Phase::Closed ==> end.reportable()
            &&& end.phase == Phase::Closed && end.init_error is None ==> {
                &&& end.outcomes().len() == s.descriptors.len()
                &&& forall|i: int|
                    0 <= i < s.descriptors.len() ==> (#[trigger] end.outcomes()[i]).name
                        == s.descriptors[i].name
            }
            &&& end.phase == Phase::Closed && end.init_error is Some ==> end.outcomes().len() == 0
        }),
{
    let end = s.run(events);
    law_run_preserves_wf(s, events);
    law_run_keeps_descriptors(s, events);
    if end.phase == Phase::Closed {
        law_closed_report_is_complete(end);
    }
}

/// The order in which two services come back does not matter to the state
/// the coordinator is left in, and so not to the report: whichever of the
/// two is reported first, the same outcomes are recorded, the same services
/// know of the shutdown, and the run stands in the same phase.
pub proof fn law_arrival_order_is_immaterial(
    s: CoordinatorState,
    first: usize,
    first_exit: ServeExit,
    second: usize,
    second_exit: ServeExit,
)
    requires
        s.wf(),
        s.awaits(first as int),
        s.awaits(second as int),
        first != second,
    ensures
        ({
            let one = Event::ServiceFinished { service: first, exit: first_exit };
            let other = Event::ServiceFinished { service: second, exit: second_exit };
            s.step(one).0.step(other).0 == s.step(other).0.step(one).0
        }),
{
    let a = first as int;
    let b = second as int;
    let after_first = lemma_not_last_to_finish(s, a, first_exit, b);
    let after_second = lemma_not_last_to_finish(s, b, second_exit, a);
    let first_then_second = after_first.announced_return(b, second_exit);
    let second_then_first = after_second.announced_return(a, first_exit);
    assert(first_then_second == second_then_first);
}

/// While another service is still out, the return of a service is recorded
/// and announced as the policy says, and the run does not settle. Returns
/// the state after the event.
proof fn lemma_not_last_to_finish(
    s: CoordinatorState,
    service: int,
    exit: ServeExit,
    other: int,
) -> (next: CoordinatorState)
    requires
        s.awaits(service),
        s.awaits(other),
        service != other,
        0 <= service <= usize::MAX,
    ensures
        next == s.step(Event::ServiceFinished { service: service as usize, exit }).0,
        next == s.announced_return(service, exit),
        next.awaits(other),
        next.policy == s.policy,
{
    let next = s.announced_return(service, exit);
    assert(!next.handles[other].finished());
    next
}

/// A coordinator whose services are out waits for one of them or for the
/// release of the resource, and for nothing else: in no state of a run have
/// all services come back while the run is neither closing the resource nor
/// closed. In particular it never waits for a termination request.
pub proof fn law_run_waits_only_for_services_or_release(s: CoordinatorState, events: Seq<Event>)
    requires
        s.wf(),
    ensures
        ({
            let now = s.run(events);
            (now.phase == Phase::Running || now.phase == Phase::Draining) ==> {
                ||| !now.all_finished()
                ||| now.guard.state == GuardState::Closing
            }
        }),
{
    law_run_preserves_wf(s, events);
}

/// An outcome is recorded once: no event changes the outcome that a service
/// has.
pub proof fn law_outcome_is_recorded_once(s: CoordinatorState, event: Event, service: int)
    requires
        s.wf(),
        0 <= service < s.handles.len(),
        s.handles[service].outcome is Some,
    ensures
        s.step(event).0.handles.len() == s.handles.len(),
        s.step(event).0.handles[service].outcome == s.handles[service].outcome,
{
}

/// A closed run is over: no event is called for, so every further event is
/// ignored.
pub proof fn law_closed_is_final(s: CoordinatorState, event: Event)
    requires
        s.phase == Phase::Closed,
    ensures
        !s.expects(event),
        s.step(event).0 == s,
        s.step(event).1 == Seq::<Action>::empty(),
{
}

/// A failure to install the signal handler or to connect the resource ends
/// the run on the spot: it closes with the error, no service is launched and
/// nothing but the end of the run is announced.
pub proof fn law_failed_start_launches_nothing(s: CoordinatorState, event: Event)
    requires
        s.wf(),
        s.expects(event),
        event matches Event::SignalHandlerInstalled(Err(_))
            || event matches Event::ResourceConnected(Err(_)),
    ensures
        s.step(event).0.phase == Phase::Closed,
        s.step(event).0.init_error is Some,
        s.step(event).0.handles.len() == 0,
        s.step(event).0.outcomes().len() == 0,
        s.step(event).0.reportable(),
        s.step(event).1 == seq![Action::Finish],
{
}

/// A termination request is acted upon once. Whatever the state, a second
/// request right after the first is ignored.
pub proof fn law_second_signal_is_ignored(s: CoordinatorState)
    ensures
        s.step(Event::Signal).0.step(Event::Signal).0 == s.step(Event::Signal).0,
        s.step(Event::Signal).0.step(Event::Signal).1 == Seq::<Action>::empty(),
{
}

/// Once the shutdown is fired no service is left unaware of it, whenever it
/// was launched: none is launching or serving, none is reported as serving,
/// and the subscription of each is resolved.
pub proof fn law_fired_shutdown_reaches_every_service(
    s: CoordinatorState,
    events: Seq<Event>,
    service: int,
)
    requires
        s.wf(),
        s.run(events).broadcaster.fired,
        0 <= service < s.run(events).handles.len(),
    ensures
        !s.run(events).handles[service].unaware(),
        s.run(events).health(service) == Health::NotServing,
        s.run(events).broadcaster.resolved(s.run(events).handles[service].receiver.id as int),
{
    law_run_preserves_wf(s, events);
}

/// The services are launched together, in one step and before any of them
/// is waited for: the launch asks for the start of every registered service,
/// in the order of registration, each with a subscription of its own, and
/// leaves a handle for each under its name.
pub proof fn law_launch_starts_every_service_together(s: CoordinatorState, service: int)
    requires
        s.unlaunched(),
        0 <= service < s.descriptors.len(),
    ensures
        s.launch().0.handles.len() == s.descriptors.len(),
        s.launch().1.len() == s.descriptors.len(),
        s.launch().1[service] == (Action::Launch {
            service: service as usize,
            receiver: Receiver { id: service as usize },
        }),
        s.launch().0.handles[service] == ServiceHandle::launched(
            s.descriptors[service].name,
            Receiver { id: service as usize },
            s.broadcaster.fired,
        ),
        s.launch().0.phase == if s.broadcaster.fired {
            Phase::Draining
        } else {
            Phase::Running
        },
{
}

/// A shutdown fired before the launch is seen by every service at its
/// launch: each starts out draining, and the event can be handed to it at
/// once.
pub proof fn law_signal_before_launch_is_not_missed(s: CoordinatorState, service: int)
    requires
        s.unlaunched(),
        s.broadcaster.fired,
        0 <= service < s.descriptors.len(),
    ensures
        s.launch().0.handles[service].status == HandleStatus::Draining,
        s.launch().0.broadcaster.deliverable(s.launch().0.handles[service].receiver.id as int),
{
    law_launch_starts_every_service_together(s, service);
}

/// What one step can ask: the release of the resource is asked for at most
/// once in a step, as its last action, and only when the guard enters the
/// closing state, which it does from the connected state (reached in that
/// step or before).
pub proof fn law_release_is_last_action(s: CoordinatorState, event: Event, i: int)
    requires
        0 <= i < s.step(event).1.len(),
        s.step(event).1[i] == Action::CloseResource,
    ensures
        i == s.step(event).1.len() - 1,
        s.guard.state == GuardState::Connected || s.guard.state == GuardState::Disconnected,
        s.step(event).0.guard.state == GuardState::Closing,
{
}

/// No event takes the guard back: a guard that is past the connected state
/// stays there, and one that is connected was not disconnected after.
pub proof fn law_guard_only_advances(s: CoordinatorState, event: Event)
    ensures
        s.guard.state != GuardState::Disconnected ==> s.step(event).0.guard.state
            != GuardState::Disconnected,
        s.guard.state != GuardState::Disconnected && s.guard.state != GuardState::Connected
            ==> s.step(event).0.guard.state != GuardState::Connected,
{
}

/// Over a whole run, whatever the events, however many termination requests
/// among them: the release of the resource is asked for at most once, and
/// never again once the guard is past the connected state.
pub proof fn law_resource_released_at_most_once(s: CoordinatorState, events: Seq<Event>)
    ensures
        s.releases_in(events) <= 1,
        s.guard.state != GuardState::Disconnected && s.guard.state != GuardState::Connected
            ==> s.releases_in(events) == 0,
    decreases events.len(),
{
    if events.len() > 0 {
        let event = events[0];
        let t = s.step(event).0;
        law_resource_released_at_most_once(t, events.skip(1));
        law_guard_only_advances(s, event);
        if s.releases(event) {
            let actions = s.step(event).1;
            let i = choose|i: int| 0 <= i < actions.len() && actions[i] == Action::CloseResource;
            law_release_is_last_action(s, event, i);
        }
    }
}

/// The resource is released after the services: when the release is asked
/// for, every service has come back and has its outcome; and a run that
/// went through its start is closed only with the guard settled.
pub proof fn law_release_follows_every_outcome(s: CoordinatorState, event: Event)
    requires
        s.wf(),
    ensures
        s.releases(event) ==> s.step(event).0.launched() && s.step(event).0.all_reported(),
        s.step(event).0.phase == Phase::Closed && s.step(event).0.init_error is None
            ==> s.step(event).0.guard.settled() && s.step(event).0.all_reported(),
{
    let t = s.step(event).0;
    law_step_preserves_wf(s, event);
    if s.releases(event) {
        let actions = s.step(event).1;
        let i = choose|i: int| 0 <= i < actions.len() && actions[i] == Action::CloseResource;
        law_release_is_last_action(s, event, i);
    }
    if t.all_finished() {
        lemma_finished_handles_are_reported(t);
    }
}

/// A service that cannot bind is reported as failed with that error, at
/// once and whether or not a termination request ever arrives. If it was
/// the last service out, the run ends without one: it is closed, or the
/// release of the resource is asked for and the run is closed when that
/// comes back.
pub proof fn law_bind_failure_is_reported_without_signal(
    s: CoordinatorState,
    service: usize,
    reason: String,
    closed: Result<(), CloseError>,
)
    requires
        s.wf(),
        s.awaits(service as int),
    ensures
        ({
            let event = Event::ServiceFinished { service, exit: ServeExit::BindFailed(reason) };
            let (next, actions) = s.step(event);
            &&& next.handles[service as int].outcome == Some(
                ServiceOutcome {
                    name: s.descriptors[service as int].name,
                    result: Err(ServiceError::Bind(reason)),
                },
            )
            &&& (forall|j: int|
                0 <= j < s.handles.len() && j != service ==> (#[trigger] s.handles[j]).finished())
                ==> {
                ||| next.phase == Phase::Closed && actions.last() == Action::Finish
                ||| {
                    &&& actions.last() == Action::CloseResource
                    &&& next.step(Event::ResourceClosed(closed)).0.phase == Phase::Closed
                    &&& next.step(Event::ResourceClosed(closed)).1 == seq![Action::Finish]
                }
            }
        }),
{
}

} // verus!
