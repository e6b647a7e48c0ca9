//! The coordinator: owner of the services, the broadcaster and the resource
//! guard, driven by the events that the runtime reports.

use vstd::prelude::*;
use crate::broadcaster::{Receiver, ShutdownBroadcaster, ShutdownSignal};
use crate::guard::{CloseDecision, GuardState, ResourceGuard};
use crate::handle::{HandleStatus, ServiceDescriptor, ServiceHandle};
use crate::laws::{
    law_closed_report_is_complete, law_receive_preserves_wf, law_register_preserves_wf,
    law_step_preserves_wf,
};
use crate::model::{Action, CoordinatorState, Event, Health, Phase, Policy};
use crate::outcome::{InitError, RunReport, ServeExit, ServiceOutcome};
use crate::signal::{SignalSource, SignalState};

verus! {

/// Runs a set of services from start to joint shutdown.
pub struct Coordinator {
    policy: Policy,
    phase: Phase,
    descriptors: Vec<ServiceDescriptor>,
    handles: Vec<ServiceHandle>,
    signal: SignalSource,
    broadcaster: ShutdownBroadcaster,
    guard: ResourceGuard,
    init_error: Option<InitError>,
}

impl View for Coordinator {
    type V = CoordinatorState;

    closed spec fn view(&self) -> CoordinatorState {
        CoordinatorState {
            policy: self.policy,
            phase: self.phase,
            descriptors: self.descriptors@,
            handles: self.handles@,
            signal: self.signal@,
            broadcaster: self.broadcaster@,
            guard: self.guard@,
            init_error: self.init_error,
        }
    }
}

impl Coordinator {
    /// An idle coordinator with nothing registered. `has_resource` says
    /// whether the run has a resource to connect and release.
    pub fn new(policy: Policy, has_resource: bool) -> (coordinator: Self)
        ensures
            coordinator@ == CoordinatorState::initial(policy, has_resource),
            coordinator@.wf(),
    {
        Coordinator {
            policy,
            phase: Phase::Idle,
            descriptors: Vec::new(),
            handles: Vec::new(),
            signal: SignalSource::new(),
            broadcaster: ShutdownBroadcaster::new(),
            guard: if has_resource {
                ResourceGuard::registered()
            } else {
                ResourceGuard::absent()
            },
            init_error: None,
        }
    }

    /// Registers a service and returns its position. Once the run has
    /// started the set of services is fixed: the descriptor is dropped and
    /// `None` returned.
    pub fn register(&mut self, descriptor: ServiceDescriptor) -> (service: Option<usize>)
        ensures
            final(self)@ == old(self)@.register(descriptor),
            old(self)@.wf() ==> final(self)@.wf(),
            old(self)@.phase == Phase::Idle ==> service == Some(
                old(self)@.descriptors.len() as usize,
            ),
            old(self)@.phase != Phase::Idle ==> service is None,
    {
        match self.phase {
            Phase::Idle => {
                let service: usize = self.descriptors.len();
                self.descriptors.push(descriptor);
                proof {
                    assert(self.descriptors@.len() == self.descriptors.len());
                    if old(self)@.wf() {
                        law_register_preserves_wf(old(self)@, descriptor);
                    }
                }
                Some(service)
            },
            _ => None,
        }
    }

    /// Whether every launched service has come back.
    fn all_finished(&self) -> (finished: bool)
        ensures
            finished == self@.all_finished(),
    {
        let n: usize = self.handles.len();
        let mut i: usize = 0;
        while i < n
            invariant
                i <= n,
                n == self.handles@.len(),
                forall|k: int| 0 <= k < i ==> (#[trigger] self.handles@[k]).finished(),
            decreases n - i,
        {
            if !self.handles[i].is_finished() {
                assert(!self@.handles[i as int].finished());
                return false;
            }
            i += 1;
        }
        true
    }

    /// Ends the run if every service has come back.
    fn settle(&mut self) -> (actions: Vec<Action>)
        ensures
            final(self)@ == old(self)@.settle().0,
            actions@ == old(self)@.settle().1,
    {
        let mut actions: Vec<Action> = Vec::new();
        if self.all_finished() {
            match self.guard.state() {
                GuardState::Closing => {},
                _ => {
                    match self.guard.begin_close() {
                        CloseDecision::Invoke => {
                            self.phase = Phase::Draining;
                            actions.push(Action::CloseResource);
                        },
                        CloseDecision::Skip => {
                            self.phase = Phase::Closed;
                            actions.push(Action::Finish);
                        },
                    }
                },
            }
        }
        actions
    }

    /// Announces the shutdown to every service.
    fn shutdown(&mut self) -> (actions: Vec<Action>)
        ensures
            final(self)@ == old(self)@.shutdown().0,
            actions@ == old(self)@.shutdown().1,
    {
        let mut actions: Vec<Action> = Vec::new();
        if self.broadcaster.is_fired() {
            return actions;
        }
        let woken = self.broadcaster.fire();
        let n: usize = self.handles.len();
        let mut i: usize = 0;
        while i < n
            invariant
                i <= n,
                n == old(self).handles@.len(),
                n == self.handles@.len(),
                self.policy == old(self).policy,
                self.phase == old(self).phase,
                self.descriptors == old(self).descriptors,
                self.signal == old(self).signal,
                self.broadcaster@ == old(self).broadcaster@.fire(),
                self.guard == old(self).guard,
                self.init_error == old(self).init_error,
                forall|k: int| 0 <= k < i ==> self.handles@[k] == old(self).handles@[k].notified(),
                forall|k: int| i <= k < n ==> self.handles@[k] == old(self).handles@[k],
            decreases n - i,
        {
            self.handles[i].notify();
            i += 1;
        }
        let m: usize = woken.len();
        let mut j: usize = 0;
        while j < m
            invariant
                j <= m,
                m == woken@.len(),
                actions@ == Seq::new(j as nat, |k: int| Action::Notify { receiver: woken@[k] }),
            decreases m - j,
        {
            actions.push(Action::Notify { receiver: woken[j] });
            j += 1;
        }
        match self.phase {
            Phase::Running => {
                self.phase = Phase::Draining;
            },
            _ => {},
        }
        actions
    }

    /// Launches every registered service.
    fn launch(&mut self) -> (actions: Vec<Action>)
        ensures
            final(self)@ == old(self)@.launch().0,
            actions@ == old(self)@.launch().1,
    {
        let mut actions: Vec<Action> = Vec::new();
        let fired = self.broadcaster.is_fired();
        let n: usize = self.descriptors.len();
        self.handles = Vec::new();
        let mut i: usize = 0;
        while i < n
            invariant
                i <= n,
                n == self.descriptors@.len(),
                fired == old(self).broadcaster@.fired,
                self.policy == old(self).policy,
                self.phase == old(self).phase,
                self.descriptors == old(self).descriptors,
                self.signal == old(self).signal,
                self.guard == old(self).guard,
                self.init_error == old(self).init_error,
                self.broadcaster@.fired == fired,
                self.broadcaster@.delivered == old(self).broadcaster@.delivered + Seq::new(
                    i as nat,
                    |k: int| false,
                ),
                self.handles@ == Seq::new(
                    i as nat,
                    |k: int|
                        ServiceHandle::launched(
                            old(self).descriptors@[k].name,
                            old(self)@.receiver_at_launch(k),
                            fired,
                        ),
                ),
                actions@ == Seq::new(
                    i as nat,
                    |k: int|
                        Action::Launch {
                            service: k as usize,
                            receiver: old(self)@.receiver_at_launch(k),
                        },
                ),
            decreases n - i,
        {
            let name = self.descriptors[i].name.clone();
            let receiver = self.broadcaster.subscribe();
            self.handles.push(ServiceHandle::launch(name, receiver, fired));
            actions.push(Action::Launch { service: i, receiver });
            i += 1;
        }
        self.phase = if fired {
            Phase::Draining
        } else {
            Phase::Running
        };
        let mut more = self.settle();
        actions.append(&mut more);
        actions
    }

    /// Gives the start up with `error`.
    fn abort(&mut self, error: InitError) -> (actions: Vec<Action>)
        ensures
            final(self)@ == old(self)@.abort(error).0,
            actions@ == old(self)@.abort(error).1,
    {
        self.phase = Phase::Closed;
        self.init_error = Some(error);
        let mut actions: Vec<Action> = Vec::new();
        actions.push(Action::Finish);
        actions
    }

    /// Records that `service` came back with `exit`.
    fn finish_service(&mut self, service: usize, exit: ServeExit) -> (actions: Vec<Action>)
        requires
            old(self)@.awaits(service as int),
        ensures
            final(self)@ == old(self)@.finish_service(service as int, exit).0,
            actions@ == old(self)@.finish_service(service as int, exit).1,
    {
        let cancels = self.policy.takes_down_on(&exit);
        self.handles[service].complete(exit);
        let mut actions = if cancels {
            self.shutdown()
        } else {
            Vec::new()
        };
        let mut last = self.settle();
        actions.append(&mut last);
        actions
    }

    /// Whether `event` is called for in the current state. An event that is
    /// not will be ignored.
    pub fn expects(&self, event: &Event) -> (expected: bool)
        ensures
            expected == self@.expects(*event),
    {
        let starting = match self.phase {
            Phase::Starting => true,
            _ => false,
        };
        let out = match self.phase {
            Phase::Running => true,
            Phase::Draining => true,
            _ => false,
        };
        match event {
            Event::Start => match self.phase {
                Phase::Idle => true,
                _ => false,
            },
            Event::SignalHandlerInstalled(_) => starting && match self.signal.state() {
                SignalState::Uninstalled => true,
                _ => false,
            },
            Event::ResourceConnected(_) => starting && match self.signal.state() {
                SignalState::Uninstalled => false,
                _ => true,
            } && match self.guard.state() {
                GuardState::Disconnected => true,
                _ => false,
            },
            Event::Signal => (starting || out) && match self.signal.state() {
                SignalState::Armed => true,
                _ => false,
            },
            Event::ServiceReady { service } => out && *service < self.handles.len(),
            Event::ServiceFinished { service, exit } => out && *service < self.handles.len()
                && !self.handles[*service].is_finished(),
            Event::ResourceClosed(_) => match self.phase {
                Phase::Draining => match self.guard.state() {
                    GuardState::Closing => true,
                    _ => false,
                },
                _ => false,
            },
        }
    }

    /// Takes one event and returns the actions to perform, in order. An
    /// event that the current state does not call for is ignored.
    pub fn step(&mut self, event: Event) -> (actions: Vec<Action>)
        ensures
            final(self)@ == old(self)@.step(event).0,
            actions@ == old(self)@.step(event).1,
            old(self)@.wf() ==> final(self)@.wf(),
    {
        proof {
            if old(self)@.wf() {
                law_step_preserves_wf(old(self)@, event);
            }
        }
        if !self.expects(&event) {
            return Vec::new();
        }
        match event {
            Event::Start => {
                self.phase = Phase::Starting;
                let mut actions: Vec<Action> = Vec::new();
                actions.push(Action::InstallSignalHandler);
                actions
            },
            Event::SignalHandlerInstalled(Ok(_)) => {
                self.signal.arm();
                match self.guard.state() {
                    GuardState::Disconnected => {
                        let mut actions: Vec<Action> = Vec::new();
                        actions.push(Action::ConnectResource);
                        actions
                    },
                    _ => self.launch(),
                }
            },
            Event::SignalHandlerInstalled(Err(reason)) => self.abort(
                InitError::SignalHandlerInstall(reason),
            ),
            Event::ResourceConnected(Ok(_)) => {
                self.guard.connect();
                self.launch()
            },
            Event::ResourceConnected(Err(reason)) => self.abort(InitError::ResourceConnect(reason)),
            Event::Signal => {
                self.signal.deliver();
                self.shutdown()
            },
            Event::ServiceReady { service } => {
                self.handles[service].ready();
                Vec::new()
            },
            Event::ServiceFinished { service, exit } => self.finish_service(service, exit),
            Event::ResourceClosed(result) => {
                self.guard.finish_close(result);
                self.phase = Phase::Closed;
                let mut actions: Vec<Action> = Vec::new();
                actions.push(Action::Finish);
                actions
            },
        }
    }

    /// Hands the shutdown event to the holder of `receiver`: `Some` the
    /// first time it is asked for after the shutdown was fired, also for a
    /// receiver handed out after the firing; `None` before the firing and on
    /// every later call.
    pub fn receive(&mut self, receiver: &Receiver) -> (signal: Option<ShutdownSignal>)
        ensures
            final(self)@ == old(self)@.receive(receiver.id as int),
            signal.is_some() == old(self)@.broadcaster.deliverable(receiver.id as int),
            old(self)@.wf() ==> final(self)@.wf(),
    {
        proof {
            if old(self)@.wf() {
                law_receive_preserves_wf(old(self)@, receiver.id as int);
            }
        }
        self.broadcaster.take(receiver)
    }

    /// The report of a closed run: the outcome of every service in the order
    /// of registration, the error that stopped the start, and the error of
    /// releasing the resource. `None` while the run is not closed.
    ///
    /// The report of a run that went through its start holds one outcome for
    /// each registered service, under the service's name; that of a run
    /// whose start was given up holds none.
    pub fn report(&self) -> (report: Option<RunReport>)
        ensures
            report is Some == self@.reportable(),
            report matches Some(r) ==> {
                &&& r.outcomes@ == self@.outcomes()
                &&& r.init_error == self@.init_error
                &&& r.close_error == self@.guard.close_error
            },
            self@.wf() ==> report is Some == (self@.phase == Phase::Closed),
            self@.wf() ==> (report matches Some(r) ==> {
                &&& r.init_error is Some ==> r.outcomes@.len() == 0
                &&& r.init_error is None ==> r.outcomes@.len() == self@.descriptors.len()
                &&& r.init_error is None ==> forall|i: int|
                    0 <= i < r.outcomes@.len() ==> (#[trigger] r.outcomes@[i]).name
                        == self@.descriptors[i].name
            }),
    {
        proof {
            if self@.wf() && self@.phase == Phase::Closed {
                law_closed_report_is_complete(self@);
            }
        }
        match self.phase {
            Phase::Closed => {},
            _ => {
                return None;
            },
        }
        let mut outcomes: Vec<ServiceOutcome> = Vec::new();
        let n: usize = self.handles.len();
        let mut i: usize = 0;
        while i < n
            invariant
                i <= n,
                n == self.handles@.len(),
                outcomes@.len() == i,
                forall|k: int|
                    0 <= k < i ==> (#[trigger] self.handles@[k]).outcome == Some(outcomes@[k]),
            decreases n - i,
        {
            match &self.handles[i].outcome {
                Some(outcome) => {
                    outcomes.push(outcome.clone());
                },
                None => {
                    return None;
                },
            }
            i += 1;
        }
        let init_error = match &self.init_error {
            Some(error) => Some(error.clone()),
            None => None,
        };
        assert(outcomes@ == self@.outcomes());
        Some(RunReport { outcomes, init_error, close_error: self.guard.close_error() })
    }

    /// The phase of the run.
    pub fn phase(&self) -> (phase: Phase)
        ensures
            phase == self@.phase,
    {
        self.phase
    }

    /// The number of registered services.
    pub fn service_count(&self) -> (n: usize)
        ensures
            n == self@.descriptors.len(),
    {
        self.descriptors.len()
    }

    /// The descriptor registered at position `service`.
    pub fn descriptor(&self, service: usize) -> (descriptor: Option<&ServiceDescriptor>)
        ensures
            service < self@.descriptors.len() ==> descriptor == Some(
                &self@.descriptors[service as int],
            ),
            service >= self@.descriptors.len() ==> descriptor is None,
    {
        if service < self.descriptors.len() {
            Some(&self.descriptors[service])
        } else {
            None
        }
    }

    /// Where the service at position `service` stands; `None` before the
    /// launch and for a position that names no service.
    pub fn status(&self, service: usize) -> (status: Option<HandleStatus>)
        ensures
            service < self@.handles.len() ==> status == Some(
                self@.handles[service as int].status,
            ),
            service >= self@.handles.len() ==> status is None,
    {
        if service < self.handles.len() {
            Some(self.handles[service].status)
        } else {
            None
        }
    }

    /// What a health check is told about the service at position `service`:
    /// serving while it is bound and the shutdown was not announced to it,
    /// unknown before the launch and for a position that names no service,
    /// not serving otherwise.
    pub fn health(&self, service: usize) -> (health: Health)
        ensures
            health == self@.health(service as int),
    {
        if service < self.handles.len() {
            match self.handles[service].status {
                HandleStatus::Serving => Health::Serving,
                _ => Health::NotServing,
            }
        } else {
            Health::Unknown
        }
    }

    /// Whether the shutdown has been fired.
    pub fn is_shutting_down(&self) -> (fired: bool)
        ensures
            fired == self@.broadcaster.fired,
    {
        self.broadcaster.is_fired()
    }
}

} // verus!
