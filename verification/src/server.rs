//! The server's lifecycle and its run flag.
//!
//! A server is constructed on a bound address, run, and stopped. The run
//! flag is up exactly while it is running; the acceptor and every session
//! observe it at the top of their loops. Once the server has been stopped
//! the flag stays down for the rest of its life.

use crate::acceptor::{AcceptOutcome, Acceptor, AcceptorAction};
use vstd::prelude::*;

verus! {

/// Why an address could not be bound.
#[derive(Clone, Copy, Debug, PartialEq, Eq, Structural)]
pub enum BindError {
    /// The address does not parse or resolve.
    InvalidAddress,
    /// Another socket holds the address.
    AddressInUse,
    /// Any other refusal.
    Other,
}

/// Why a server was not run.
#[derive(Clone, Copy, Debug, PartialEq, Eq, Structural)]
pub enum RunError {
    /// The server has been stopped; it does not start again.
    Stopped,
}

/// What a call of [`Server::stop`] found.
#[derive(Clone, Copy, Debug, PartialEq, Eq, Structural)]
pub enum StopReport {
    /// The server was running; the flag is now down.
    SignalSent,
    /// The server was not running; nothing was changed.
    AlreadyStopped,
}

/// Where a server stands in its life.
#[derive(Clone, Copy, Debug, PartialEq, Eq, Structural)]
pub enum Phase {
    /// Bound, not yet run.
    Constructed,
    /// Accepting connections.
    Running,
    /// Stopped after having run.
    Stopped,
}

impl Phase {
    /// The run flag in this phase.
    pub open spec fn is_running(self) -> bool {
        self == Phase::Running
    }

    /// The phase after a call of `run`.
    pub open spec fn ran(self) -> Phase {
        if self == Phase::Stopped {
            Phase::Stopped
        } else {
            Phase::Running
        }
    }

    /// What a call of `run` returns.
    pub open spec fn run_result(self) -> Result<(), RunError> {
        if self == Phase::Stopped {
            Err(RunError::Stopped)
        } else {
            Ok(())
        }
    }

    /// The phase after a call of `stop`.
    pub open spec fn stopped(self) -> Phase {
        if self == Phase::Running {
            Phase::Stopped
        } else {
            self
        }
    }

    /// What a call of `stop` reports.
    pub open spec fn stop_report(self) -> StopReport {
        if self == Phase::Running {
            StopReport::SignalSent
        } else {
            StopReport::AlreadyStopped
        }
    }
}

/// The lifecycle of one server.
#[derive(Debug)]
pub struct Server {
    phase: Phase,
}

impl Server {
    /// The phase of the server, in contracts.
    pub closed spec fn spec_phase(&self) -> Phase {
        self.phase
    }

    /// A server on an address, given what binding the address gave. A
    /// refused address is the error of the construction; on a bound one the
    /// server stands constructed, its flag down.
    pub fn new(bound: Result<(), BindError>) -> (r: Result<Server, BindError>)
        ensures
            match r {
                Ok(server) => bound is Ok && server.spec_phase() == Phase::Constructed,
                Err(e) => bound == Err::<(), BindError>(e),
            },
    {
        match bound {
            Ok(_) => Ok(Server { phase: Phase::Constructed }),
            Err(e) => Err(e),
        }
    }

    /// The phase of the server.
    #[verifier::when_used_as_spec(spec_phase)]
    pub fn phase(&self) -> (phase: Phase)
        ensures
            phase == self.spec_phase(),
    {
        self.phase
    }

    /// The run flag.
    pub fn is_running(&self) -> (running: bool)
        ensures
            running == self.spec_phase().is_running(),
    {
        match self.phase {
            Phase::Running => true,
            _ => false,
        }
    }

    /// Raises the run flag. On `Ok` the caller starts one acceptor and does
    /// not wait for it; a second call while running asks for a second
    /// acceptor. A stopped server is not started again.
    pub fn run(&mut self) -> (r: Result<(), RunError>)
        ensures
            final(self).spec_phase() == old(self).spec_phase().ran(),
            r == old(self).spec_phase().run_result(),
    {
        match self.phase {
            Phase::Stopped => Err(RunError::Stopped),
            _ => {
                self.phase = Phase::Running;
                Ok(())
            },
        }
    }

    /// Lowers the run flag if it is up, and reports which it was. Nothing is
    /// interrupted: the loops see the flag at their next turn.
    pub fn stop(&mut self) -> (report: StopReport)
        ensures
            final(self).spec_phase() == old(self).spec_phase().stopped(),
            report == old(self).spec_phase().stop_report(),
            !final(self).spec_phase().is_running(),
    {
        match self.phase {
            Phase::Running => {
                self.phase = Phase::Stopped;
                StopReport::SignalSent
            },
            _ => StopReport::AlreadyStopped,
        }
    }
}

/// Stopping a server that is not running, because it never ran or because
/// it was stopped before, changes nothing and reports that it was already
/// stopped, not that a signal was sent.
pub proof fn lemma_stop_when_not_running(phase: Phase)
    requires
        !phase.is_running(),
    ensures
        phase.stop_report() == StopReport::AlreadyStopped,
        phase.stopped() == phase,
{
}

/// Stopping is idempotent: a second stop finds the server already stopped
/// and leaves it as the first did.
pub proof fn lemma_stop_is_idempotent(phase: Phase)
    ensures
        phase.stopped().stopped() == phase.stopped(),
        phase.stopped().stop_report() == StopReport::AlreadyStopped,
{
}

/// The flag of a running server that is stopped is down and stays down:
/// neither a later `run` nor a later `stop` raises it again.
pub proof fn lemma_stopped_stays_stopped(phase: Phase)
    requires
        phase.is_running(),
    ensures
        phase.stop_report() == StopReport::SignalSent,
        phase.stopped() == Phase::Stopped,
        !phase.stopped().is_running(),
        !phase.stopped().ran().is_running(),
        phase.stopped().ran().run_result() is Err,
        !phase.stopped().stopped().is_running(),
{
}

/// After a call of `stop`, in whatever phase it found the server, the flag
/// is down; an acceptor that observes it tries no accept and starts no
/// session, then or on any later turn.
pub proof fn lemma_no_accept_after_stop(
    phase: Phase,
    acceptor: Acceptor,
    later: bool,
    outcome: AcceptOutcome,
)
    ensures
        !phase.stopped().is_running(),
        !acceptor.polled(phase.stopped().is_running()).active,
        !acceptor.polled(phase.stopped().is_running()).polled(later).active,
        acceptor.polled(phase.stopped().is_running()).action(outcome) != AcceptorAction::Spawn,
{
}

} // verus!
