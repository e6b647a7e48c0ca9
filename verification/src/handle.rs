//! One service: its descriptor, and the handle that follows its serve
//! routine from launch to outcome.

use vstd::prelude::*;
use crate::broadcaster::Receiver;
use crate::outcome::{ServeExit, ServiceOutcome};

verus! {

/// What is registered for a service: its name and the address its listener
/// binds. The serve routine itself stays with the runtime.
#[derive(Debug, PartialEq, Eq)]
pub struct ServiceDescriptor {
    pub name: String,
    pub bind_address: String,
}

impl ServiceDescriptor {
    /// A descriptor for the service `name`, to be bound to `bind_address`.
    pub fn new(name: String, bind_address: String) -> (descriptor: Self)
        ensures
            descriptor.name == name,
            descriptor.bind_address == bind_address,
    {
        ServiceDescriptor { name, bind_address }
    }
}

impl Clone for ServiceDescriptor {
    fn clone(&self) -> (copy: Self)
        ensures
            copy == *self,
    {
        ServiceDescriptor { name: self.name.clone(), bind_address: self.bind_address.clone() }
    }
}

/// Where a launched service stands.
#[derive(Clone, Copy, Debug, PartialEq, Eq, Structural)]
pub enum HandleStatus {
    /// Launched; its listener has not reported that it is bound.
    Launching,
    /// Bound and accepting work; no shutdown was announced to it.
    Serving,
    /// The shutdown was announced; it finishes the work in flight.
    Draining,
    /// Its serve routine came back and its outcome is recorded.
    Finished,
}

/// The handle of one launched service: the receiver through which it learns
/// of the shutdown, its status, and its outcome once it has one.
#[derive(Debug, PartialEq, Eq)]
pub struct ServiceHandle {
    pub name: String,
    pub receiver: Receiver,
    pub status: HandleStatus,
    pub outcome: Option<ServiceOutcome>,
}

impl ServiceHandle {
    /// A handle has an outcome exactly when it is finished, and the outcome
    /// bears the service's name.
    pub open spec fn wf(self) -> bool {
        &&& self.status == HandleStatus::Finished <==> self.outcome is Some
        &&& self.outcome matches Some(outcome) ==> outcome.name == self.name
    }

    /// Whether the service has come back.
    pub open spec fn finished(self) -> bool {
        self.status == HandleStatus::Finished
    }

    /// The handle of a service at launch. One launched when the shutdown was
    /// already fired starts out draining.
    pub open spec fn launched(name: String, receiver: Receiver, shutting_down: bool) -> Self {
        ServiceHandle {
            name,
            receiver,
            status: if shutting_down {
                HandleStatus::Draining
            } else {
                HandleStatus::Launching
            },
            outcome: None,
        }
    }

    /// The handle after its listener reported that it is bound. Only a
    /// handle that is launching waits for that.
    pub open spec fn readied(self) -> Self {
        if self.status == HandleStatus::Launching {
            ServiceHandle {
                name: self.name,
                receiver: self.receiver,
                status: HandleStatus::Serving,
                outcome: self.outcome,
            }
        } else {
            self
        }
    }

    /// Whether the shutdown has not been announced to the service yet.
    pub open spec fn unaware(self) -> bool {
        self.status == HandleStatus::Launching || self.status == HandleStatus::Serving
    }

    /// The handle after the shutdown was announced to it.
    pub open spec fn notified(self) -> Self {
        if self.unaware() {
            ServiceHandle {
                name: self.name,
                receiver: self.receiver,
                status: HandleStatus::Draining,
                outcome: self.outcome,
            }
        } else {
            self
        }
    }

    /// The handle after its serve routine came back with `exit`. A handle
    /// that is finished keeps the outcome it has.
    pub open spec fn completed(self, exit: ServeExit) -> Self {
        if self.finished() {
            self
        } else {
            ServiceHandle {
                name: self.name,
                receiver: self.receiver,
                status: HandleStatus::Finished,
                outcome: Some(ServiceOutcome::of_exit(self.name, exit)),
            }
        }
    }

    /// Creates the handle of a service that is being launched.
    pub fn launch(name: String, receiver: Receiver, shutting_down: bool) -> (handle: Self)
        ensures
            handle == Self::launched(name, receiver, shutting_down),
            handle.wf(),
    {
        let status = if shutting_down {
            HandleStatus::Draining
        } else {
            HandleStatus::Launching
        };
        ServiceHandle { name, receiver, status, outcome: None }
    }

    /// Records that the listener of the service is bound.
    pub fn ready(&mut self)
        ensures
            *final(self) == old(self).readied(),
            old(self).wf() ==> final(self).wf(),
    {
        match self.status {
            HandleStatus::Launching => {
                self.status = HandleStatus::Serving;
            },
            _ => {},
        }
    }

    /// Records that the shutdown was announced to the service.
    pub fn notify(&mut self)
        ensures
            *final(self) == old(self).notified(),
            old(self).wf() ==> final(self).wf(),
    {
        match self.status {
            HandleStatus::Launching => {
                self.status = HandleStatus::Draining;
            },
            HandleStatus::Serving => {
                self.status = HandleStatus::Draining;
            },
            _ => {},
        }
    }

    /// Records how the serve routine came back and returns whether this was
    /// news: `false` for a handle that already has its outcome, which it
    /// keeps.
    pub fn complete(&mut self, exit: ServeExit) -> (recorded: bool)
        ensures
            *final(self) == old(self).completed(exit),
            recorded == !old(self).finished(),
            old(self).wf() ==> final(self).wf(),
    {
        match self.status {
            HandleStatus::Finished => false,
            _ => {
                self.outcome = Some(ServiceOutcome::from_exit(self.name.clone(), exit));
                self.status = HandleStatus::Finished;
                true
            },
        }
    }

    /// Whether the service has come back.
    pub fn is_finished(&self) -> (finished: bool)
        ensures
            finished == self.finished(),
    {
        match self.status {
            HandleStatus::Finished => true,
            _ => false,
        }
    }
}

} // verus!
