//! The values a run ends in: one outcome per service, and the report that
//! collects them.

use vstd::prelude::*;

verus! {

/// Why a service ended in failure.
#[derive(Debug, PartialEq, Eq)]
pub enum ServiceError {
    /// The listener could not bind its address.
    Bind(String),
    /// The serve routine failed, or crashed, after it had bound.
    Runtime(String),
}

impl Clone for ServiceError {
    fn clone(&self) -> (copy: Self)
        ensures
            copy == *self,
    {
        match self {
            ServiceError::Bind(reason) => ServiceError::Bind(reason.clone()),
            ServiceError::Runtime(reason) => ServiceError::Runtime(reason.clone()),
        }
    }
}

impl ServiceError {
    /// The reason given for the failure.
    pub open spec fn spec_reason(self) -> String {
        match self {
            ServiceError::Bind(reason) => reason,
            ServiceError::Runtime(reason) => reason,
        }
    }

    /// The reason given for the failure.
    pub fn reason(&self) -> (reason: &String)
        ensures
            *reason == self.spec_reason(),
    {
        match self {
            ServiceError::Bind(reason) => reason,
            ServiceError::Runtime(reason) => reason,
        }
    }

    /// Whether the listener failed to bind.
    pub fn is_bind(&self) -> (bind: bool)
        ensures
            bind == (*self is Bind),
    {
        match self {
            ServiceError::Bind(_) => true,
            ServiceError::Runtime(_) => false,
        }
    }
}

/// How the serve routine of one service came back.
#[derive(Debug, PartialEq, Eq)]
pub enum ServeExit {
    /// It stopped after the shutdown notification, its work finished.
    Stopped,
    /// It could not bind its address and never served.
    BindFailed(String),
    /// It returned an error after it had bound.
    Failed(String),
    /// It crashed.
    Panicked(String),
}

/// The terminal result of one service, under the name of its descriptor.
#[derive(Debug, PartialEq, Eq)]
pub struct ServiceOutcome {
    pub name: String,
    pub result: Result<(), ServiceError>,
}

impl ServiceOutcome {
    /// The outcome that a service called `name` has when its serve routine
    /// came back with `exit`. Nothing but a clean stop is a success, and a
    /// crash is a runtime failure like any other.
    pub open spec fn of_exit(name: String, exit: ServeExit) -> ServiceOutcome {
        ServiceOutcome {
            name,
            result: match exit {
                ServeExit::Stopped => Ok(()),
                ServeExit::BindFailed(reason) => Err(ServiceError::Bind(reason)),
                ServeExit::Failed(reason) => Err(ServiceError::Runtime(reason)),
                ServeExit::Panicked(reason) => Err(ServiceError::Runtime(reason)),
            },
        }
    }

    /// Builds the outcome of the service called `name` from the way its serve
    /// routine came back.
    pub fn from_exit(name: String, exit: ServeExit) -> (outcome: ServiceOutcome)
        ensures
            outcome == ServiceOutcome::of_exit(name, exit),
    {
        let result = match exit {
            ServeExit::Stopped => Ok(()),
            ServeExit::BindFailed(reason) => Err(ServiceError::Bind(reason)),
            ServeExit::Failed(reason) => Err(ServiceError::Runtime(reason)),
            ServeExit::Panicked(reason) => Err(ServiceError::Runtime(reason)),
        };
        ServiceOutcome { name, result }
    }

    /// Whether the service ended in success.
    pub fn is_ok(&self) -> (ok: bool)
        ensures
            ok == (self.result is Ok),
    {
        match &self.result {
            Ok(_) => true,
            Err(_) => false,
        }
    }
}

impl Clone for ServiceOutcome {
    fn clone(&self) -> (copy: Self)
        ensures
            copy == *self,
    {
        let result = match &self.result {
            Ok(unit) => Ok(*unit),
            Err(error) => Err(error.clone()),
        };
        ServiceOutcome { name: self.name.clone(), result }
    }
}

/// Why a run ended before any listener was started.
#[derive(Debug, PartialEq, Eq)]
pub enum InitError {
    /// The shared resource could not be connected.
    ResourceConnect(String),
    /// The handler for termination requests could not be installed.
    SignalHandlerInstall(String),
}

impl Clone for InitError {
    fn clone(&self) -> (copy: Self)
        ensures
            copy == *self,
    {
        match self {
            InitError::ResourceConnect(reason) => InitError::ResourceConnect(reason.clone()),
            InitError::SignalHandlerInstall(reason) => InitError::SignalHandlerInstall(
                reason.clone(),
            ),
        }
    }
}

/// Why releasing the shared resource failed.
#[derive(Debug, PartialEq, Eq)]
pub struct CloseError {
    pub reason: String,
}

impl Clone for CloseError {
    fn clone(&self) -> (copy: Self)
        ensures
            copy == *self,
    {
        CloseError { reason: self.reason.clone() }
    }
}

/// What a finished run reports: the outcome of every service in the order of
/// registration, the error that stopped the start if there was one, and the
/// error of releasing the resource if there was one.
#[derive(Debug, PartialEq, Eq)]
pub struct RunReport {
    pub outcomes: Vec<ServiceOutcome>,
    pub init_error: Option<InitError>,
    pub close_error: Option<CloseError>,
}

impl RunReport {
    /// Whether any of the first `n` outcomes is a failure.
    pub open spec fn any_failed_before(self, n: int) -> bool {
        exists|i: int|
            0 <= i < n && i < self.outcomes@.len() && (#[trigger] self.outcomes@[i]).result is Err
    }

    /// Whether the run failed: the start was stopped by an error, or some
    /// service ended in failure. An error of releasing the resource does not
    /// count.
    pub open spec fn failed(self) -> bool {
        self.init_error is Some || self.any_failed_before(self.outcomes@.len() as int)
    }

    /// The exit status of the process: 0 for a clean run, 1 for a failed one.
    pub open spec fn spec_exit_code(self) -> i32 {
        if self.failed() {
            1
        } else {
            0
        }
    }

    /// Whether the run failed.
    pub fn has_failed(&self) -> (failed: bool)
        ensures
            failed == self.failed(),
    {
        if self.init_error.is_some() {
            return true;
        }
        let n: usize = self.outcomes.len();
        let mut i: usize = 0;
        while i < n
            invariant
                i <= n,
                n == self.outcomes@.len(),
                !self.any_failed_before(i as int),
            decreases n - i,
        {
            if !self.outcomes[i].is_ok() {
                return true;
            }
            i += 1;
        }
        false
    }

    /// The exit status of the process: 0 for a clean run, 1 for a failed one.
    pub fn exit_code(&self) -> (code: i32)
        ensures
            code == self.spec_exit_code(),
    {
        if self.has_failed() {
            1
        } else {
            0
        }
    }
}

} // verus!
