//! The coordinator as a state machine over mathematical values.
//!
//! `CoordinatorState::step` says what every event does to every state and
//! which actions it asks of the runtime. The executable coordinator is
//! proved to follow it, and the laws of the run are proved about it.

use vstd::prelude::*;
use crate::broadcaster::{BroadcasterState, Receiver};
use crate::guard::{GuardModel, GuardState};
use crate::handle::{HandleStatus, ServiceDescriptor, ServiceHandle};
use crate::outcome::{CloseError, InitError, ServeExit, ServiceOutcome};
use crate::signal::SignalState;

verus! {

/// The phase of a run.
#[derive(Clone, Copy, Debug, PartialEq, Eq, Structural)]
pub enum Phase {
    /// Services are being registered.
    Idle,
    /// The signal handler is being installed and the resource connected.
    Starting,
    /// Every service is launched and no shutdown was announced.
    Running,
    /// The shutdown was announced and services are finishing, or all have
    /// finished and the resource is being released.
    Draining,
    /// The run is over.
    Closed,
}

/// What a failure of one service means for the others.
#[derive(Clone, Copy, Debug, PartialEq, Eq, Structural)]
pub struct Policy {
    /// Announce the shutdown to all services when one cannot bind.
    pub fail_fast_on_bind_failure: bool,
    /// Announce the shutdown to all services when one fails after binding.
    pub cancel_on_runtime_failure: bool,
}

impl Policy {
    /// Whether a service that came back with `exit` takes the others down.
    pub open spec fn cancels_on(self, exit: ServeExit) -> bool {
        match exit {
            ServeExit::Stopped => false,
            ServeExit::BindFailed(_) => self.fail_fast_on_bind_failure,
            ServeExit::Failed(_) => self.cancel_on_runtime_failure,
            ServeExit::Panicked(_) => self.cancel_on_runtime_failure,
        }
    }

    /// The default: a failing service is reported and the others keep
    /// running.
    pub fn best_effort() -> (policy: Policy)
        ensures
            !policy.fail_fast_on_bind_failure,
            !policy.cancel_on_runtime_failure,
    {
        Policy { fail_fast_on_bind_failure: false, cancel_on_runtime_failure: false }
    }

    /// Whether a service that came back with `exit` takes the others down.
    pub fn takes_down_on(&self, exit: &ServeExit) -> (cancels: bool)
        ensures
            cancels == self.cancels_on(*exit),
    {
        match exit {
            ServeExit::Stopped => false,
            ServeExit::BindFailed(_) => self.fail_fast_on_bind_failure,
            ServeExit::Failed(_) => self.cancel_on_runtime_failure,
            ServeExit::Panicked(_) => self.cancel_on_runtime_failure,
        }
    }
}

impl Default for Policy {
    fn default() -> (policy: Policy)
        ensures
            !policy.fail_fast_on_bind_failure,
            !policy.cancel_on_runtime_failure,
    {
        Policy::best_effort()
    }
}

/// What the runtime observed.
#[derive(Debug, PartialEq, Eq)]
pub enum Event {
    /// The run is to begin.
    Start,
    /// Installing the handler for termination requests succeeded or failed.
    SignalHandlerInstalled(Result<(), String>),
    /// Connecting the resource succeeded or failed.
    ResourceConnected(Result<(), String>),
    /// A termination request arrived.
    Signal,
    /// The listener of a service is bound and accepts work.
    ServiceReady { service: usize },
    /// The serve routine of a service came back.
    ServiceFinished { service: usize, exit: ServeExit },
    /// Releasing the resource succeeded or failed.
    ResourceClosed(Result<(), CloseError>),
}

/// What the coordinator asks of the runtime.
#[derive(Clone, Copy, Debug, PartialEq, Eq, Structural)]
pub enum Action {
    /// Install the handler for termination requests.
    InstallSignalHandler,
    /// Connect the resource.
    ConnectResource,
    /// Start the serve routine of a service, with the receiver through which
    /// it learns of the shutdown.
    Launch { service: usize, receiver: Receiver },
    /// Wake the holder of a receiver: the shutdown was fired.
    Notify { receiver: Receiver },
    /// Release the resource.
    CloseResource,
    /// The run is over; the report can be collected.
    Finish,
}

/// What a health check is told about a service.
#[derive(Clone, Copy, Debug, PartialEq, Eq, Structural)]
pub enum Health {
    /// Nothing is known: the service is not launched, or there is none.
    Unknown,
    /// The service is bound and no shutdown was announced to it.
    Serving,
    /// The service is still launching, is draining or has come back.
    NotServing,
}

/// What a coordinator is.
#[verifier::ext_equal]
pub struct CoordinatorState {
    pub policy: Policy,
    pub phase: Phase,
    pub descriptors: Seq<ServiceDescriptor>,
    pub handles: Seq<ServiceHandle>,
    pub signal: SignalState,
    pub broadcaster: BroadcasterState,
    pub guard: GuardModel,
    pub init_error: Option<InitError>,
}

impl CoordinatorState {
    /// A coordinator before anything is registered.
    pub open spec fn initial(policy: Policy, has_resource: bool) -> Self {
        CoordinatorState {
            policy,
            phase: Phase::Idle,
            descriptors: Seq::empty(),
            handles: Seq::empty(),
            signal: SignalState::Uninstalled,
            broadcaster: BroadcasterState::initial(),
            guard: if has_resource {
                GuardModel::registered()
            } else {
                GuardModel::absent()
            },
            init_error: None,
        }
    }

    /// The state after registering `descriptor`. Registration is open while
    /// the coordinator is idle and changes nothing afterwards.
    pub open spec fn register(self, descriptor: ServiceDescriptor) -> Self {
        if self.phase == Phase::Idle {
            CoordinatorState { descriptors: self.descriptors.push(descriptor), ..self }
        } else {
            self
        }
    }

    /// The state after the holder of subscription `id` asked for the
    /// shutdown event.
    pub open spec fn receive(self, id: int) -> Self {
        CoordinatorState { broadcaster: self.broadcaster.take(id), ..self }
    }

    /// Whether every service has been launched.
    pub open spec fn launched(self) -> bool {
        self.handles.len() == self.descriptors.len()
    }

    /// Whether every launched service has come back.
    pub open spec fn all_finished(self) -> bool {
        forall|i: int| 0 <= i < self.handles.len() ==> (#[trigger] self.handles[i]).finished()
    }

    /// Whether every launched service has its outcome.
    pub open spec fn all_reported(self) -> bool {
        forall|i: int| 0 <= i < self.handles.len() ==> (#[trigger] self.handles[i]).outcome is Some
    }

    /// The outcomes of the services, in the order of registration.
    pub open spec fn outcomes(self) -> Seq<ServiceOutcome> {
        Seq::new(self.handles.len(), |i: int| self.handles[i].outcome.unwrap())
    }

    /// Whether the report can be collected: the run is over and no outcome
    /// is missing.
    pub open spec fn reportable(self) -> bool {
        self.phase == Phase::Closed && self.all_reported()
    }

    /// What a health check is told about the service at position `service`.
    pub open spec fn health(self, service: int) -> Health {
        if 0 <= service < self.handles.len() {
            if self.handles[service].status == HandleStatus::Serving {
                Health::Serving
            } else {
                Health::NotServing
            }
        } else {
            Health::Unknown
        }
    }

    /// The receiver that the service at position `i` gets when the services
    /// are launched.
    pub open spec fn receiver_at_launch(self, i: int) -> Receiver {
        Receiver { id: (self.broadcaster.delivered.len() + i) as usize }
    }

    /// The state with every registered service launched: each has a fresh
    /// subscription and a handle, which starts out draining if the shutdown
    /// has been fired already.
    pub open spec fn started(self) -> Self {
        let n = self.descriptors.len();
        let fired = self.broadcaster.fired;
        CoordinatorState {
            phase: if fired {
                Phase::Draining
            } else {
                Phase::Running
            },
            handles: Seq::new(
                n,
                |i: int|
                    ServiceHandle::launched(
                        self.descriptors[i].name,
                        self.receiver_at_launch(i),
                        fired,
                    ),
            ),
            broadcaster: BroadcasterState {
                fired,
                delivered: self.broadcaster.delivered + Seq::new(n, |i: int| false),
            },
            ..self
        }
    }

    /// Launches every registered service and asks the runtime to start each.
    /// With nothing to launch the run settles at once.
    pub open spec fn launch(self) -> (Self, Seq<Action>) {
        let launches = Seq::new(
            self.descriptors.len(),
            |i: int| Action::Launch { service: i as usize, receiver: self.receiver_at_launch(i) },
        );
        let (settled, more) = self.started().settle();
        (settled, launches + more)
    }

    /// Announces the shutdown: fires the broadcaster, marks every handle
    /// that is launching or serving as draining and asks to wake every
    /// subscriber. Once fired, this changes nothing.
    pub open spec fn shutdown(self) -> (Self, Seq<Action>) {
        if self.broadcaster.fired {
            (self, Seq::empty())
        } else {
            (
                CoordinatorState {
                    phase: if self.phase == Phase::Running {
                        Phase::Draining
                    } else {
                        self.phase
                    },
                    handles: Seq::new(self.handles.len(), |i: int| self.handles[i].notified()),
                    broadcaster: self.broadcaster.fire(),
                    ..self
                },
                Seq::new(
                    self.broadcaster.woken_by_fire().len(),
                    |i: int| Action::Notify { receiver: self.broadcaster.woken_by_fire()[i] },
                ),
            )
        }
    }

    /// Ends the run once every service has come back: a connected resource
    /// is released first, and the run closes when that is done; without one
    /// the run closes at once. While a service is still out, or the release
    /// is under way, nothing happens.
    pub open spec fn settle(self) -> (Self, Seq<Action>) {
        if !self.all_finished() {
            (self, Seq::empty())
        } else {
            match self.guard.state {
                GuardState::Connected => (
                    CoordinatorState {
                        phase: Phase::Draining,
                        guard: self.guard.begin_close(),
                        ..self
                    },
                    seq![Action::CloseResource],
                ),
                GuardState::Closing => (self, Seq::empty()),
                _ => (
                    CoordinatorState {
                        phase: Phase::Closed,
                        guard: self.guard.begin_close(),
                        ..self
                    },
                    seq![Action::Finish],
                ),
            }
        }
    }

    /// Gives the start up: the run closes with `error` and without having
    /// launched anything.
    pub open spec fn abort(self, error: InitError) -> (Self, Seq<Action>) {
        (
            CoordinatorState { phase: Phase::Closed, init_error: Some(error), ..self },
            seq![Action::Finish],
        )
    }

    /// The state with the return of `service` recorded.
    pub open spec fn recorded_return(self, service: int, exit: ServeExit) -> Self {
        CoordinatorState {
            handles: self.handles.update(service, self.handles[service].completed(exit)),
            ..self
        }
    }

    /// The state with the return of `service` recorded and, if the policy
    /// says so, the shutdown announced.
    pub open spec fn announced_return(self, service: int, exit: ServeExit) -> Self {
        if self.policy.cancels_on(exit) {
            self.recorded_return(service, exit).shutdown().0
        } else {
            self.recorded_return(service, exit)
        }
    }

    /// The state after `service` came back with `exit`: its outcome is
    /// recorded, the shutdown is announced if the policy says so, and the
    /// run settles if this was the last service.
    pub open spec fn finish_service(self, service: int, exit: ServeExit) -> (Self, Seq<Action>) {
        let wakes = if self.policy.cancels_on(exit) {
            self.recorded_return(service, exit).shutdown().1
        } else {
            Seq::empty()
        };
        let (settled, last) = self.announced_return(service, exit).settle();
        (settled, wakes + last)
    }

    /// Whether a termination request is acted upon in this state.
    pub open spec fn heeds_signal(self) -> bool {
        &&& self.phase == Phase::Starting || self.phase == Phase::Running || self.phase
            == Phase::Draining
        &&& self.signal.delivers()
    }

    /// Whether a report of readiness from `service` is taken: the services
    /// are out and `service` is one of them.
    pub open spec fn hears(self, service: int) -> bool {
        &&& self.phase == Phase::Running || self.phase == Phase::Draining
        &&& 0 <= service < self.handles.len()
    }

    /// Whether the return of `service` is news in this state: the services
    /// are out, and this one has not come back before.
    pub open spec fn awaits(self, service: int) -> bool {
        &&& self.phase == Phase::Running || self.phase == Phase::Draining
        &&& 0 <= service < self.handles.len()
        &&& !self.handles[service].finished()
    }

    /// Whether `event` is called for in this state.
    pub open spec fn expects(self, event: Event) -> bool {
        match event {
            Event::Start => self.phase == Phase::Idle,
            Event::SignalHandlerInstalled(_) => self.phase == Phase::Starting && self.signal
                == SignalState::Uninstalled,
            Event::ResourceConnected(_) => self.phase == Phase::Starting && self.signal
                != SignalState::Uninstalled && self.guard.state == GuardState::Disconnected,
            Event::Signal => self.heeds_signal(),
            Event::ServiceReady { service } => self.hears(service as int),
            Event::ServiceFinished { service, exit } => self.awaits(service as int),
            Event::ResourceClosed(_) => self.phase == Phase::Draining && self.guard.state
                == GuardState::Closing,
        }
    }

    /// The state after `event`, and the actions that the runtime is asked to
    /// perform, in order. An event that the state does not call for is
    /// ignored: the state stays and nothing is asked.
    pub open spec fn step(self, event: Event) -> (Self, Seq<Action>) {
        if !self.expects(event) {
            (self, Seq::empty())
        } else {
            match event {
                Event::Start => (
                    CoordinatorState { phase: Phase::Starting, ..self },
                    seq![Action::InstallSignalHandler],
                ),
                Event::SignalHandlerInstalled(Ok(_)) => {
                    let armed = CoordinatorState { signal: self.signal.arm(), ..self };
                    if self.guard.state == GuardState::Disconnected {
                        (armed, seq![Action::ConnectResource])
                    } else {
                        armed.launch()
                    }
                },
                Event::SignalHandlerInstalled(Err(reason)) => self.abort(
                    InitError::SignalHandlerInstall(reason),
                ),
                Event::ResourceConnected(Ok(_)) => CoordinatorState {
                    guard: self.guard.connect(),
                    ..self
                }.launch(),
                Event::ResourceConnected(Err(reason)) => self.abort(
                    InitError::ResourceConnect(reason),
                ),
                Event::Signal => CoordinatorState {
                    signal: self.signal.deliver(),
                    ..self
                }.shutdown(),
                Event::ServiceReady { service } => (
                    CoordinatorState {
                        handles: self.handles.update(
                            service as int,
                            self.handles[service as int].readied(),
                        ),
                        ..self
                    },
                    Seq::empty(),
                ),
                Event::ServiceFinished { service, exit } => self.finish_service(
                    service as int,
                    exit,
                ),
                Event::ResourceClosed(result) => (
                    CoordinatorState {
                        phase: Phase::Closed,
                        guard: self.guard.finish_close(result),
                        ..self
                    },
                    seq![Action::Finish],
                ),
            }
        }
    }

    /// The state after the events `events`, taken in turn.
    pub open spec fn run(self, events: Seq<Event>) -> Self
        decreases events.len(),
    {
        if events.len() == 0 {
            self
        } else {
            self.step(events[0]).0.run(events.skip(1))
        }
    }

    /// Whether `event` makes the coordinator ask for the release of the
    /// resource.
    pub open spec fn releases(self, event: Event) -> bool {
        self.step(event).1.contains(Action::CloseResource)
    }

    /// How many of the events `events`, taken in turn, make the coordinator
    /// ask for the release of the resource.
    pub open spec fn releases_in(self, events: Seq<Event>) -> nat
        decreases events.len(),
    {
        if events.len() == 0 {
            0
        } else {
            let first: nat = if self.releases(events[0]) {
                1
            } else {
                0
            };
            first + self.step(events[0]).0.releases_in(events.skip(1))
        }
    }

    /// How handles, descriptors and subscriptions hang together: the
    /// services can be counted in a machine word; before the launch there
    /// are no handles; from the launch on there is one per descriptor, under
    /// its name, holding the subscription of the same position. A fired
    /// broadcaster leaves no handle unaware of it, and only a closed guard
    /// holds an error.
    pub open spec fn structured(self) -> bool {
        &&& self.descriptors.len() <= usize::MAX
        &&& self.handles.len() == 0 || self.launched()
        &&& self.broadcaster.delivered.len() == self.handles.len()
        &&& forall|i: int|
            0 <= i < self.handles.len() ==> {
                &&& (#[trigger] self.handles[i]).wf()
                &&& self.handles[i].name == self.descriptors[i].name
                &&& self.handles[i].receiver.id == i
                &&& self.broadcaster.fired ==> !self.handles[i].unaware()
            }
        &&& self.guard.state != GuardState::Closed ==> self.guard.close_error is None
    }

    /// What holds before the launch: no handle, no error, no connection.
    pub open spec fn unlaunched(self) -> bool {
        &&& self.structured()
        &&& self.handles.len() == 0
        &&& self.init_error is None
        &&& self.guard.state == GuardState::Absent || self.guard.state
            == GuardState::Disconnected
    }

    /// What holds while the services are out: all are launched, the start
    /// went through, the resource is connected if there is one, and the
    /// phase says whether the shutdown was announced.
    pub open spec fn serving(self) -> bool {
        &&& self.structured()
        &&& self.launched()
        &&& self.init_error is None
        &&& self.guard.state == GuardState::Absent || self.guard.state == GuardState::Connected
        &&& (self.phase == Phase::Running && !self.broadcaster.fired) || (self.phase
            == Phase::Draining && self.broadcaster.fired)
    }

    /// What holds of a coordinator at every moment of every run. The phase
    /// fixes how far the guard and the services may have come; in
    /// particular a closed run has either an initialization error and no
    /// handle, or every outcome and a settled guard.
    pub open spec fn wf(self) -> bool {
        &&& self.structured()
        &&& match self.phase {
            Phase::Idle => {
                &&& self.unlaunched()
                &&& self.signal == SignalState::Uninstalled
                &&& !self.broadcaster.fired
            },
            Phase::Starting => self.unlaunched(),
            Phase::Running => self.serving() && !self.all_finished(),
            Phase::Draining => if self.guard.state == GuardState::Closing {
                self.launched() && self.init_error is None && self.all_finished()
            } else {
                self.serving() && !self.all_finished()
            },
            Phase::Closed => if self.init_error is Some {
                &&& self.handles.len() == 0
                &&& self.guard.state == GuardState::Absent || self.guard.state
                    == GuardState::Disconnected
            } else {
                &&& self.launched()
                &&& self.all_finished()
                &&& self.guard.settled()
            },
        }
    }
}

} // verus!
