//! The escalating-signal termination protocol.
//!
//! A stop session is created from the registry entry that was removed for the
//! logical id and from what port introspection reported: the authoritative
//! occupant pids of the bound port, or nothing when the platform has no
//! introspection tool. It then walks the occupants one by one: graceful
//! termination first, a liveness probe after the grace period, and the
//! forceful signal only for a process that refused to die (or whose graceful
//! signal could not be delivered). Without introspection it falls back to
//! forcefully terminating only the pid the registry had tracked. The driver
//! performs each requested signal or probe and feeds the result back; a
//! failure to act on one pid never blocks the protocol from moving to the
//! next.

use vstd::prelude::*;

use crate::outcome::{spec_stop_outcome, stop_outcome_of, StopOutcome};

verus! {

/// The next operating-system step a stop session asks for.
#[derive(Clone, Copy, Debug, PartialEq, Eq, Structural)]
pub enum StopAction {
    /// Send the graceful termination signal (signal 15) to the pid.
    SendTerm(u32),
    /// Wait the grace period, then probe the pid for liveness (signal 0).
    ProbeAfterGrace(u32),
    /// Send the forceful kill signal (signal 9) to the pid.
    SendKill(u32),
    /// Nothing is left to do but report the outcome.
    Report,
}

/// Where the protocol stands for the pid currently being terminated.
#[derive(Clone, Copy, Debug, PartialEq, Eq, Structural)]
pub enum StopStage {
    /// The graceful signal has not been sent yet.
    Graceful,
    /// The graceful signal was delivered; liveness is probed next.
    Probing,
    /// The forceful signal is owed.
    Forceful,
}

/// One run of the termination protocol.
pub struct StopSession {
    known: Option<u32>,
    targets: Vec<u32>,
    graceful: bool,
    idx: usize,
    stage: StopStage,
    kills: Vec<u32>,
}

/// What port introspection reported, as a model value: the occupant pids, or
/// nothing when the platform has no introspection tool.
pub open spec fn occupants_view(o: Option<Vec<u32>>) -> Option<Seq<u32>> {
    match o {
        Some(v) => Some(v@),
        None => None,
    }
}

/// A session as `StopSession::new` hands it out, before any signal was sent.
pub open spec fn is_initial_session(
    s: StopSession,
    known: Option<u32>,
    occupants: Option<Seq<u32>>,
) -> bool {
    &&& s.wf()
    &&& s.known_pid() == known
    &&& s.position() == 0
    &&& s.kill_seq() == Seq::<u32>::empty()
    &&& match occupants {
        Some(v) => s.target_seq() == v && s.graceful_mode(),
        None => !s.graceful_mode() && match known {
            Some(p) => s.target_seq() == seq![p],
            None => s.target_seq() == Seq::<u32>::empty(),
        },
    }
    &&& (!s.done() ==> s.stage_now() == (if s.graceful_mode() {
        StopStage::Graceful
    } else {
        StopStage::Forceful
    }))
}

impl StopSession {
    /// The registry entry the stop removed for the logical id.
    pub closed spec fn known_pid(&self) -> Option<u32> {
        self.known
    }

    /// The pids the protocol processes, in order.
    pub closed spec fn target_seq(&self) -> Seq<u32> {
        self.targets@
    }

    /// Whether the session runs the two-phase escalation (introspection was
    /// available) or falls back to forceful kills only.
    pub closed spec fn graceful_mode(&self) -> bool {
        self.graceful
    }

    /// How many targets have been fully processed.
    pub closed spec fn position(&self) -> int {
        self.idx as int
    }

    /// The protocol stage for the current target.
    pub closed spec fn stage_now(&self) -> StopStage {
        self.stage
    }

    /// The pids that received the forceful signal, in order.
    pub closed spec fn kill_seq(&self) -> Seq<u32> {
        self.kills@
    }

    /// Every target was processed.
    pub open spec fn done(&self) -> bool {
        self.position() == self.target_seq().len()
    }

    /// Validity: the position never passes the end, and a session without
    /// introspection only ever owes forceful signals.
    pub closed spec fn wf(&self) -> bool {
        &&& self.idx <= self.targets@.len()
        &&& (!self.graceful ==> self.stage == StopStage::Forceful)
    }

    /// Starts the protocol for one stop: `known` is the registry entry that
    /// was removed, `occupants` what port introspection reported (`None` when
    /// the platform has no such tool).
    pub fn new(known: Option<u32>, occupants: Option<Vec<u32>>) -> (s: StopSession)
        ensures
            is_initial_session(s, known, occupants_view(occupants)),
    {
        match occupants {
            Some(v) => StopSession {
                known,
                targets: v,
                graceful: true,
                idx: 0,
                stage: StopStage::Graceful,
                kills: Vec::new(),
            },
            None => {
                let mut targets: Vec<u32> = Vec::new();
                match known {
                    Some(p) => {
                        targets.push(p);
                    },
                    None => {},
                }
                StopSession {
                    known,
                    targets,
                    graceful: false,
                    idx: 0,
                    stage: StopStage::Forceful,
                    kills: Vec::new(),
                }
            },
        }
    }

    /// Whether every target has been processed.
    pub fn is_done(&self) -> (b: bool)
        ensures
            b == self.done(),
    {
        self.idx == self.targets.len()
    }

    /// What the driver must do next.
    pub fn next_action(&self) -> (a: StopAction)
        requires
            self.wf(),
        ensures
            a == (if self.done() {
                StopAction::Report
            } else {
                match self.stage_now() {
                    StopStage::Graceful => StopAction::SendTerm(
                        self.target_seq()[self.position()],
                    ),
                    StopStage::Probing => StopAction::ProbeAfterGrace(
                        self.target_seq()[self.position()],
                    ),
                    StopStage::Forceful => StopAction::SendKill(
                        self.target_seq()[self.position()],
                    ),
                }
            }),
    {
        if self.idx == self.targets.len() {
            StopAction::Report
        } else {
            let pid = self.targets[self.idx];
            match self.stage {
                StopStage::Graceful => StopAction::SendTerm(pid),
                StopStage::Probing => StopAction::ProbeAfterGrace(pid),
                StopStage::Forceful => StopAction::SendKill(pid),
            }
        }
    }

    /// The driver sent the graceful signal; `delivered` says whether the send
    /// succeeded. A delivered signal earns the process a grace period and a
    /// probe; a failed send escalates to the forceful signal at once.
    pub fn on_term_result(&mut self, delivered: bool)
        requires
            old(self).wf(),
            !old(self).done(),
            old(self).stage_now() == StopStage::Graceful,
        ensures
            final(self).wf(),
            final(self).known_pid() == old(self).known_pid(),
            final(self).target_seq() == old(self).target_seq(),
            final(self).graceful_mode() == old(self).graceful_mode(),
            final(self).kill_seq() == old(self).kill_seq(),
            final(self).position() == old(self).position(),
            !final(self).done(),
            final(self).stage_now() == (if delivered {
                StopStage::Probing
            } else {
                StopStage::Forceful
            }),
    {
        if delivered {
            self.stage = StopStage::Probing;
        } else {
            self.stage = StopStage::Forceful;
        }
    }

    /// The driver probed the process after the grace period. A process still
    /// alive is owed the forceful signal; one already gone is finished and
    /// the protocol moves to the next target.
    pub fn on_probe_result(&mut self, alive: bool)
        requires
            old(self).wf(),
            !old(self).done(),
            old(self).stage_now() == StopStage::Probing,
        ensures
            final(self).wf(),
            final(self).known_pid() == old(self).known_pid(),
            final(self).target_seq() == old(self).target_seq(),
            final(self).graceful_mode() == old(self).graceful_mode(),
            final(self).kill_seq() == old(self).kill_seq(),
            alive ==> final(self).position() == old(self).position() && !final(self).done()
                && final(self).stage_now() == StopStage::Forceful,
            !alive ==> final(self).position() == old(self).position() + 1 && (!final(self).done()
                ==> final(self).stage_now() == StopStage::Graceful),
    {
        if alive {
            self.stage = StopStage::Forceful;
        } else {
            let n = self.targets.len();
            assert(self.idx < n);
            self.idx = self.idx + 1;
            self.stage = StopStage::Graceful;
        }
    }

    /// The driver sent the forceful signal to the current target (whether the
    /// send itself succeeded no longer matters: nothing escalates further).
    /// The pid is recorded among the forcefully killed and the protocol moves
    /// to the next target.
    pub fn on_kill_sent(&mut self)
        requires
            old(self).wf(),
            !old(self).done(),
            old(self).stage_now() == StopStage::Forceful,
        ensures
            final(self).wf(),
            final(self).known_pid() == old(self).known_pid(),
            final(self).target_seq() == old(self).target_seq(),
            final(self).graceful_mode() == old(self).graceful_mode(),
            final(self).kill_seq() == old(self).kill_seq().push(
                old(self).target_seq()[old(self).position()],
            ),
            final(self).position() == old(self).position() + 1,
            !final(self).done() ==> final(self).stage_now() == (if final(self).graceful_mode() {
                StopStage::Graceful
            } else {
                StopStage::Forceful
            }),
    {
        let pid = self.targets[self.idx];
        self.kills.push(pid);
        let n = self.targets.len();
        assert(self.idx < n);
        self.idx = self.idx + 1;
        if self.graceful {
            self.stage = StopStage::Graceful;
        }
    }

    /// The outcome a finished session reports: occupants processed, a stale
    /// entry cleared, or nothing running at all.
    pub fn outcome(&self) -> (o: StopOutcome)
        requires
            self.wf(),
            self.done(),
        ensures
            o == spec_stop_outcome(self.known_pid(), self.target_seq()),
    {
        stop_outcome_of(&self.known, &self.targets)
    }

    /// The pids the protocol processed (every real occupant found, or the
    /// fallback pid); what a successful stop reports as stopped.
    pub fn processed_pids(&self) -> (v: &Vec<u32>)
        ensures
            v@ == self.target_seq(),
    {
        &self.targets
    }

    /// The pids that received the forceful signal.
    pub fn killed_pids(&self) -> (v: &Vec<u32>)
        ensures
            v@ == self.kill_seq(),
    {
        &self.kills
    }
}

} // verus!
