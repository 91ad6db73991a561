//! The acceptor: the loop that turns incoming connections into sessions.
//!
//! The acceptor owns no socket either. Its owner asks [`Acceptor::poll`] at
//! the top of every turn whether to try an accept, tries it without
//! blocking, and asks [`Acceptor::accepted`] what to do with the outcome.

use vstd::prelude::*;

verus! {

/// How long the acceptor sleeps when no connection is waiting, in
/// milliseconds.
pub const ACCEPT_POLL_MILLIS: u64 = 100;

/// What an attempt to accept gave.
#[derive(Clone, Copy, Debug, PartialEq, Eq, Structural)]
pub enum AcceptOutcome {
    /// A peer was accepted.
    Connected,
    /// No connection was waiting.
    WouldBlock,
    /// The attempt failed in any other way.
    Fault,
}

/// What the acceptor's owner does next.
#[derive(Clone, Copy, Debug, PartialEq, Eq, Structural)]
pub enum AcceptorAction {
    /// Start a session on the accepted connection, in a context of its own.
    Spawn,
    /// Sleep this long, then go back to the top of the loop.
    Sleep { millis: u64 },
    /// Go back to the top of the loop.
    Continue,
}

/// The acceptor of one server.
#[derive(Clone, Copy, Debug, PartialEq, Eq, Structural)]
pub struct Acceptor {
    /// Whether the loop is still turning.
    pub active: bool,
}

impl Acceptor {
    /// The acceptor after the run flag was observed at the top of a turn:
    /// it goes on only while the flag is up, and once it has left its loop
    /// it does not come back.
    pub open spec fn polled(self, running: bool) -> Acceptor {
        Acceptor { active: self.active && running }
    }

    /// What follows an attempt to accept. A fault is not the acceptor's end.
    pub open spec fn action(self, outcome: AcceptOutcome) -> AcceptorAction {
        if !self.active {
            AcceptorAction::Continue
        } else {
            match outcome {
                AcceptOutcome::Connected => AcceptorAction::Spawn,
                AcceptOutcome::WouldBlock => AcceptorAction::Sleep { millis: ACCEPT_POLL_MILLIS },
                AcceptOutcome::Fault => AcceptorAction::Continue,
            }
        }
    }

    /// An acceptor at the start of its loop.
    pub fn new() -> (acceptor: Acceptor)
        ensures
            acceptor.active,
    {
        Acceptor { active: true }
    }

    /// The top of a turn. `running` is the run flag as just observed. The
    /// result says whether to try an accept; `false` ends the loop.
    pub fn poll(&mut self, running: bool) -> (attempt: bool)
        ensures
            *final(self) == old(self).polled(running),
            attempt == final(self).active,
    {
        if !running {
            self.active = false;
        }
        self.active
    }

    /// What to do with the outcome of an attempt to accept.
    pub fn accepted(&self, outcome: AcceptOutcome) -> (action: AcceptorAction)
        ensures
            action == self.action(outcome),
    {
        if !self.active {
            AcceptorAction::Continue
        } else {
            match outcome {
                AcceptOutcome::Connected => AcceptorAction::Spawn,
                AcceptOutcome::WouldBlock => AcceptorAction::Sleep { millis: ACCEPT_POLL_MILLIS },
                AcceptOutcome::Fault => AcceptorAction::Continue,
            }
        }
    }
}

/// Once the acceptor has seen the run flag down it accepts nothing more:
/// it tries no accept on any later turn, whatever the flag then says, and
/// starts no session, whatever an attempt would give.
pub proof fn lemma_no_session_after_flag_down(
    acceptor: Acceptor,
    later: bool,
    outcome: AcceptOutcome,
)
    ensures
        !acceptor.polled(false).active,
        !acceptor.polled(false).polled(later).active,
        acceptor.polled(false).action(outcome) != AcceptorAction::Spawn,
        acceptor.polled(false).polled(later).action(outcome) != AcceptorAction::Spawn,
{
}

/// While the flag is up a turning acceptor keeps turning, whatever the
/// attempts give: no outcome of an accept ends it.
pub proof fn lemma_acceptor_survives_outcomes(acceptor: Acceptor, outcome: AcceptOutcome)
    requires
        acceptor.active,
    ensures
        acceptor.polled(true) == acceptor,
        acceptor.action(outcome) == AcceptorAction::Spawn <==> outcome == AcceptOutcome::Connected,
{
}

} // verus!
