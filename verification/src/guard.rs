//! The guard of the shared resource.
//!
//! The resource is released by the runtime; the guard decides whether a
//! request to release it leads to a call. It says yes once, for a resource
//! that was connected, and no ever after.

use vstd::prelude::*;
use crate::outcome::CloseError;

verus! {

/// Where the guarded resource stands.
#[derive(Clone, Copy, Debug, PartialEq, Eq, Structural)]
pub enum GuardState {
    /// No resource was registered.
    Absent,
    /// A resource was registered; its connection is not established.
    Disconnected,
    /// The connection is established.
    Connected,
    /// The release was handed to the runtime and has not come back.
    Closing,
    /// The resource is released, or was given up unconnected.
    Closed,
}

/// What the runtime does upon a request to release the resource.
#[derive(Clone, Copy, Debug, PartialEq, Eq, Structural)]
pub enum CloseDecision {
    /// Call the resource's release now.
    Invoke,
    /// Do nothing.
    Skip,
}

/// What a guard is: the state of the resource, and the error of its release
/// if the release failed.
pub struct GuardModel {
    pub state: GuardState,
    pub close_error: Option<CloseError>,
}

/// One operation on a guard, as a value.
pub enum GuardOp {
    /// The connection was established.
    Connect,
    /// The release was asked for.
    BeginClose,
    /// The release came back with a result.
    FinishClose(Result<(), CloseError>),
}

impl GuardModel {
    /// The guard of a run without a resource.
    pub open spec fn absent() -> Self {
        GuardModel { state: GuardState::Absent, close_error: None }
    }

    /// The guard of a registered resource, before it is connected.
    pub open spec fn registered() -> Self {
        GuardModel { state: GuardState::Disconnected, close_error: None }
    }

    /// The guard after the connection was established.
    pub open spec fn connect(self) -> Self {
        if self.state == GuardState::Disconnected {
            GuardModel { state: GuardState::Connected, close_error: self.close_error }
        } else {
            self
        }
    }

    /// What a request to release the resource is answered with.
    pub open spec fn close_decision(self) -> CloseDecision {
        if self.state == GuardState::Connected {
            CloseDecision::Invoke
        } else {
            CloseDecision::Skip
        }
    }

    /// The guard after a request to release the resource. A resource that
    /// was never connected is given up without a call.
    pub open spec fn begin_close(self) -> Self {
        match self.state {
            GuardState::Connected => GuardModel {
                state: GuardState::Closing,
                close_error: self.close_error,
            },
            GuardState::Disconnected => GuardModel {
                state: GuardState::Closed,
                close_error: self.close_error,
            },
            _ => self,
        }
    }

    /// The guard after the release came back with `result`.
    pub open spec fn finish_close(self, result: Result<(), CloseError>) -> Self {
        if self.state == GuardState::Closing {
            GuardModel {
                state: GuardState::Closed,
                close_error: match result {
                    Ok(_) => None,
                    Err(error) => Some(error),
                },
            }
        } else {
            self
        }
    }

    /// Whether nothing is left to release: there is no resource, or it is
    /// closed.
    pub open spec fn settled(self) -> bool {
        self.state == GuardState::Absent || self.state == GuardState::Closed
    }

    /// The guard after `op`.
    pub open spec fn apply(self, op: GuardOp) -> Self {
        match op {
            GuardOp::Connect => self.connect(),
            GuardOp::BeginClose => self.begin_close(),
            GuardOp::FinishClose(result) => self.finish_close(result),
        }
    }

    /// How many of the operations `ops`, applied in turn, lead to a call of
    /// the resource's release.
    pub open spec fn invocations(self, ops: Seq<GuardOp>) -> nat
        decreases ops.len(),
    {
        if ops.len() == 0 {
            0
        } else {
            let first: nat = if ops[0] is BeginClose && self.close_decision()
                == CloseDecision::Invoke {
                1
            } else {
                0
            };
            first + self.apply(ops[0]).invocations(ops.skip(1))
        }
    }
}

/// Guards a resource whose release must be called exactly once.
pub struct ResourceGuard {
    state: GuardState,
    close_error: Option<CloseError>,
}

impl View for ResourceGuard {
    type V = GuardModel;

    closed spec fn view(&self) -> GuardModel {
        GuardModel { state: self.state, close_error: self.close_error }
    }
}

impl ResourceGuard {
    /// The guard of a run without a resource.
    pub fn absent() -> (guard: Self)
        ensures
            guard@ == GuardModel::absent(),
    {
        ResourceGuard { state: GuardState::Absent, close_error: None }
    }

    /// The guard of a registered resource, before it is connected.
    pub fn registered() -> (guard: Self)
        ensures
            guard@ == GuardModel::registered(),
    {
        ResourceGuard { state: GuardState::Disconnected, close_error: None }
    }

    /// Records that the connection was established. Returns whether the
    /// guard was waiting for that.
    pub fn connect(&mut self) -> (connected: bool)
        ensures
            final(self)@ == old(self)@.connect(),
            connected == (old(self)@.state == GuardState::Disconnected),
    {
        match self.state {
            GuardState::Disconnected => {
                self.state = GuardState::Connected;
                true
            },
            _ => false,
        }
    }

    /// Asks to release the resource. The answer is `Invoke` for a connected
    /// resource, once; a resource that is absent, was never connected, is
    /// being released or is released gets `Skip`.
    pub fn begin_close(&mut self) -> (decision: CloseDecision)
        ensures
            final(self)@ == old(self)@.begin_close(),
            decision == old(self)@.close_decision(),
    {
        match self.state {
            GuardState::Connected => {
                self.state = GuardState::Closing;
                CloseDecision::Invoke
            },
            GuardState::Disconnected => {
                self.state = GuardState::Closed;
                CloseDecision::Skip
            },
            _ => CloseDecision::Skip,
        }
    }

    /// Records the result of the release. Returns whether a release was
    /// under way; if none was, the result is dropped.
    pub fn finish_close(&mut self, result: Result<(), CloseError>) -> (recorded: bool)
        ensures
            final(self)@ == old(self)@.finish_close(result),
            recorded == (old(self)@.state == GuardState::Closing),
    {
        match self.state {
            GuardState::Closing => {
                self.state = GuardState::Closed;
                self.close_error = match result {
                    Ok(_) => None,
                    Err(error) => Some(error),
                };
                true
            },
            _ => false,
        }
    }

    /// Where the resource stands.
    pub fn state(&self) -> (state: GuardState)
        ensures
            state == self@.state,
    {
        self.state
    }

    /// The error of the release, if it failed.
    pub fn close_error(&self) -> (error: Option<CloseError>)
        ensures
            error == self@.close_error,
    {
        match &self.close_error {
            Some(error) => Some(error.clone()),
            None => None,
        }
    }
}

/// Whatever operations are applied to a guard, and however often its release
/// is asked for, the release is called at most once; on a guard that is past
/// the connected state, or has no resource, it is never called.
pub proof fn law_close_invoked_at_most_once(s: GuardModel, ops: Seq<GuardOp>)
    ensures
        s.invocations(ops) <= 1,
        s.state != GuardState::Disconnected && s.state != GuardState::Connected
            ==> s.invocations(ops) == 0,
    decreases ops.len(),
{
    if ops.len() > 0 {
        law_close_invoked_at_most_once(s.apply(ops[0]), ops.skip(1));
    }
}

/// The release is called only for a resource that was connected: a guard
/// that never saw a connection answers every request with `Skip`.
pub proof fn law_unconnected_close_is_noop(s: GuardModel)
    requires
        s.state == GuardState::Disconnected || s.state == GuardState::Absent,
    ensures
        s.close_decision() == CloseDecision::Skip,
        s.begin_close().settled(),
        s.begin_close().connect() == s.begin_close(),
{
}

} // verus!
