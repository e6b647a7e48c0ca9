//! Lifecycle coordination for a host that runs several network listeners
//! side by side.
//!
//! The crate holds the decisions only: which listener to launch, whom to wake
//! when a termination request arrives, when the shared resource may be
//! released, and what the final report says. Every decision is a transition of
//! a small state machine, taken in response to an event that the surrounding
//! runtime observed. Binding sockets, awaiting signals and talking to the
//! resource are left to that runtime.
//!
//! - `signal`: turns termination requests into at most one shutdown signal.
//! - `broadcaster`: hands that one signal to any number of subscribers.
//! - `guard`: lets the release of the shared resource be called once.
//! - `handle`: a service, from launch to outcome.
//! - `outcome`: outcomes, errors and the report of a run.
//! - `model`: the coordinator as a state machine over mathematical values.
//! - `coordinator`: the executable coordinator, proved to follow the model.
//! - `laws`: what holds of every run.

pub mod broadcaster;
pub mod coordinator;
pub mod guard;
pub mod handle;
pub mod laws;
pub mod model;
pub mod outcome;
pub mod signal;
