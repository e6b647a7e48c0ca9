//! The source of the termination request.
//!
//! The runtime waits for the operating system's request and reports each one
//! here. The source lets the first pass and ignores the rest.

use vstd::prelude::*;
use crate::broadcaster::ShutdownSignal;

verus! {

/// Where a signal source stands.
#[derive(Clone, Copy, Debug, PartialEq, Eq, Structural)]
pub enum SignalState {
    /// No handler is installed: a request cannot be observed.
    Uninstalled,
    /// The handler is installed and no request has arrived.
    Armed,
    /// A request has arrived and was passed on.
    Fired,
}

impl SignalState {
    /// The state after the handler was installed.
    pub open spec fn arm(self) -> SignalState {
        if self == SignalState::Uninstalled {
            SignalState::Armed
        } else {
            self
        }
    }

    /// Whether a request that arrives now is passed on.
    pub open spec fn delivers(self) -> bool {
        self == SignalState::Armed
    }

    /// The state after a request arrived.
    pub open spec fn deliver(self) -> SignalState {
        if self.delivers() {
            SignalState::Fired
        } else {
            self
        }
    }
}

/// Turns the termination requests of a process into at most one shutdown
/// signal.
pub struct SignalSource {
    state: SignalState,
}

impl View for SignalSource {
    type V = SignalState;

    closed spec fn view(&self) -> SignalState {
        self.state
    }
}

impl SignalSource {
    /// A source without a handler.
    pub fn new() -> (source: Self)
        ensures
            source@ == SignalState::Uninstalled,
    {
        SignalSource { state: SignalState::Uninstalled }
    }

    /// Records that the handler was installed. Returns whether this armed
    /// the source.
    pub fn arm(&mut self) -> (armed: bool)
        ensures
            final(self)@ == old(self)@.arm(),
            armed == (old(self)@ == SignalState::Uninstalled),
    {
        match self.state {
            SignalState::Uninstalled => {
                self.state = SignalState::Armed;
                true
            },
            _ => false,
        }
    }

    /// Reports a termination request. The first one on an armed source
    /// yields the shutdown signal; any other is ignored.
    pub fn deliver(&mut self) -> (signal: Option<ShutdownSignal>)
        ensures
            final(self)@ == old(self)@.deliver(),
            signal.is_some() == old(self)@.delivers(),
    {
        match self.state {
            SignalState::Armed => {
                self.state = SignalState::Fired;
                Some(ShutdownSignal {})
            },
            _ => None,
        }
    }

    /// Where the source stands.
    pub fn state(&self) -> (state: SignalState)
        ensures
            state == self@,
    {
        self.state
    }
}

/// A source passes on at most one request: after any request, the next one is
/// ignored and changes nothing.
pub proof fn law_signal_fires_at_most_once(s: SignalState)
    ensures
        !s.deliver().delivers(),
        s.deliver().deliver() == s.deliver(),
{
}

} // verus!
