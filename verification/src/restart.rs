//! Force restart: one atomic-feeling composition of termination and launch.
//!
//! The termination protocol runs unconditionally against whatever occupies
//! the port — even when the registry had no entry for the id. A settle period
//! then lets the operating system fully release the socket: a just-killed
//! process may not have given its port back immediately, and the launch must
//! not race a prior occupant's shutdown. Only after the settle period does
//! the launch pipeline begin. The phase token enforces that order on the
//! driver: the launch phase is unreachable without passing through
//! `termination_complete` and `settled`.

use vstd::prelude::*;

use crate::launch::{LaunchPhase, LaunchSession};
use crate::stop::{is_initial_session, occupants_view, StopSession};

verus! {

/// Where a force restart stands.
#[derive(Clone, Copy, Debug, PartialEq, Eq, Structural)]
pub enum RestartPhase {
    /// The termination protocol is running against the port's occupants.
    Terminating,
    /// Termination finished; the settle period is being waited out.
    Settling,
    /// The settle period passed; the launch pipeline may run.
    Launching,
}

/// One force restart in progress. The embedded sessions are driven directly;
/// the phase gates their order.
pub struct RestartSession {
    /// The termination protocol over the port's occupants (or the fallback
    /// pid when introspection is unavailable).
    pub stopper: StopSession,
    /// The launch pipeline for the replacement process.
    pub launcher: LaunchSession,
    phase: RestartPhase,
}

impl RestartSession {
    /// The restart's current phase.
    pub closed spec fn restart_phase(&self) -> RestartPhase {
        self.phase
    }

    /// The embedded termination protocol, as a model value.
    pub closed spec fn stop_session(&self) -> StopSession {
        self.stopper
    }

    /// The embedded launch pipeline, as a model value.
    pub closed spec fn launch_session(&self) -> LaunchSession {
        self.launcher
    }

    /// Begins a restart: `known` is the registry entry that was removed for
    /// the id, `occupants` what port introspection reported.
    pub fn new(known: Option<u32>, occupants: Option<Vec<u32>>) -> (s: RestartSession)
        ensures
            s.restart_phase() == RestartPhase::Terminating,
            is_initial_session(s.stop_session(), known, occupants_view(occupants)),
            s.launch_session().phase_now() == LaunchPhase::CheckingPath,
    {
        RestartSession {
            stopper: StopSession::new(known, occupants),
            launcher: LaunchSession::new(),
            phase: RestartPhase::Terminating,
        }
    }

    /// The current phase, for the driver to dispatch on.
    pub fn phase(&self) -> (p: RestartPhase)
        ensures
            p == self.restart_phase(),
    {
        self.phase
    }

    /// The termination protocol processed every occupant; the settle period
    /// starts now.
    pub fn termination_complete(&mut self)
        requires
            old(self).restart_phase() == RestartPhase::Terminating,
            old(self).stop_session().done(),
        ensures
            final(self).restart_phase() == RestartPhase::Settling,
            final(self).stop_session() == old(self).stop_session(),
            final(self).launch_session() == old(self).launch_session(),
    {
        self.phase = RestartPhase::Settling;
    }

    /// The driver waited the settle period out; the port can be rebound and
    /// the launch pipeline may begin.
    pub fn settled(&mut self)
        requires
            old(self).restart_phase() == RestartPhase::Settling,
        ensures
            final(self).restart_phase() == RestartPhase::Launching,
            final(self).stop_session() == old(self).stop_session(),
            final(self).launch_session() == old(self).launch_session(),
    {
        self.phase = RestartPhase::Launching;
    }
}

} // verus!
