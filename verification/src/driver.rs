//! The lifecycle of one connection.
//!
//! A connection is `Pending` until its handshake is validated, `Upgrading`
//! until the host hands over the raw connection, `Open` while the callback or
//! the pump runs, and `Closed` for good after that. The host reports what
//! happened; `step` moves the connection on and `termination_of` says, from how
//! the callback or pump ended, what the host is told.

use vstd::prelude::*;
use crate::message::{FrameError, IoFault};
use crate::pump::{end_on, handle_result};

verus! {

/// How a connection ended.
#[derive(Debug, PartialEq, Eq)]
pub enum Termination {
    /// The request was no valid upgrade: the host passes it on. This is a
    /// routing miss and no error.
    NotApplicable,
    /// The connection ended as expected.
    Graceful,
    /// The connection ended on a fault, which the host is told.
    Fault(IoFault),
}

/// The state of one connection.
#[derive(Debug, PartialEq, Eq)]
pub enum ConnectionState {
    /// The handshake is not validated yet.
    Pending,
    /// The handshake is valid and the response is built; the host has not
    /// handed over the raw connection yet.
    Upgrading,
    /// The duplex stream is made; the callback or the pump runs.
    Open,
    /// The connection has ended.
    Closed(Termination),
}

/// What the host reports of a connection.
#[derive(Debug, PartialEq, Eq)]
pub enum ConnectionEvent {
    /// The handshake was validated, and this is whether it is a valid upgrade.
    Validated(bool),
    /// The host handed over the raw connection.
    HandedOver,
    /// The callback or the pump has completed with this result.
    Completed(Result<(), FrameError>),
}

/// How a connection ends whose callback or pump completed with `result`: only
/// a fault is an error, a closed connection is an expected end.
pub open spec fn spec_termination_of(result: Result<(), FrameError>) -> Termination {
    match result {
        Ok(_) => Termination::Graceful,
        Err(error) => match end_on(error) {
            Ok(_) => Termination::Graceful,
            Err(fault) => Termination::Fault(fault),
        },
    }
}

/// The state that follows `state` on `event`. An event that the state does not
/// wait for leaves it as it is.
pub open spec fn spec_step(state: ConnectionState, event: ConnectionEvent) -> ConnectionState {
    match (state, event) {
        (ConnectionState::Pending, ConnectionEvent::Validated(true)) => ConnectionState::Upgrading,
        (ConnectionState::Pending, ConnectionEvent::Validated(false)) => ConnectionState::Closed(
            Termination::NotApplicable,
        ),
        (ConnectionState::Upgrading, ConnectionEvent::HandedOver) => ConnectionState::Open,
        (ConnectionState::Open, ConnectionEvent::Completed(result)) => ConnectionState::Closed(
            spec_termination_of(result),
        ),
        (state, _) => state,
    }
}

/// How the connection ended, from how its callback or pump completed.
pub fn termination_of(result: Result<(), FrameError>) -> (t: Termination)
    ensures
        t == spec_termination_of(result),
{
    match handle_result(result) {
        Ok(_) => Termination::Graceful,
        Err(fault) => Termination::Fault(fault),
    }
}

impl Termination {
    /// What the host is told: success, or the fault. A request that was passed
    /// on has no connection to report on.
    pub fn into_result(self) -> (r: Option<Result<(), IoFault>>)
        ensures
            r == (match self {
                Termination::NotApplicable => None::<Result<(), IoFault>>,
                Termination::Graceful => Some(Ok::<(), IoFault>(())),
                Termination::Fault(fault) => Some(Err::<(), IoFault>(fault)),
            }),
    {
        match self {
            Termination::NotApplicable => None,
            Termination::Graceful => Some(Ok(())),
            Termination::Fault(fault) => Some(Err(fault)),
        }
    }
}

impl ConnectionState {
    /// The state of a connection attempt that has just come in.
    pub fn new() -> (state: ConnectionState)
        ensures
            state == ConnectionState::Pending,
    {
        ConnectionState::Pending
    }

    /// Whether the connection has ended.
    pub fn is_closed(&self) -> (r: bool)
        ensures
            r == (*self is Closed),
    {
        match self {
            ConnectionState::Closed(_) => true,
            _ => false,
        }
    }

    /// Moves the connection on by one event.
    pub fn step(self, event: ConnectionEvent) -> (next: ConnectionState)
        ensures
            next == spec_step(self, event),
    {
        match self {
            ConnectionState::Pending => match event {
                ConnectionEvent::Validated(true) => ConnectionState::Upgrading,
                ConnectionEvent::Validated(false) => ConnectionState::Closed(
                    Termination::NotApplicable,
                ),
                _ => ConnectionState::Pending,
            },
            ConnectionState::Upgrading => match event {
                ConnectionEvent::HandedOver => ConnectionState::Open,
                _ => ConnectionState::Upgrading,
            },
            ConnectionState::Open => match event {
                ConnectionEvent::Completed(result) => ConnectionState::Closed(
                    termination_of(result),
                ),
                _ => ConnectionState::Open,
            },
            ConnectionState::Closed(t) => ConnectionState::Closed(t),
        }
    }
}

/// The state after the events `events`, taken in order from `state`.
pub open spec fn spec_run(state: ConnectionState, events: Seq<ConnectionEvent>) -> ConnectionState
    decreases events.len(),
{
    if events.len() == 0 {
        state
    } else {
        spec_run(spec_step(state, events[0]), events.drop_first())
    }
}

/// `Closed` is terminal: whatever is reported of a connection that has ended,
/// it stays ended in the way it did.
pub proof fn lemma_closed_is_terminal(t: Termination, events: Seq<ConnectionEvent>)
    ensures
        spec_run(ConnectionState::Closed(t), events) == ConnectionState::Closed(t),
    decreases events.len(),
{
    if events.len() > 0 {
        lemma_closed_is_terminal(t, events.drop_first());
    }
}

} // verus!
