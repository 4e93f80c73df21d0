//! The launch pipeline for one service.
//!
//! The order of the pipeline is part of its contract: the executable path is
//! probed before anything else, so a missing script fails with `NotFound`
//! before any log directory or file is touched and before any process is
//! created. Then the per-id log file is opened (created if absent, append
//! mode, one file receiving interleaved standard output and error), execute
//! permission is granted best-effort — its failure is merely diagnostic — and
//! finally the script is spawned through a shell in its own session, with the
//! reconstructed environment, so it outlives its launcher. The driver
//! performs each step and feeds the result back.

use vstd::prelude::*;

use crate::outcome::LifecycleError;

verus! {

/// Where a launch pipeline stands.
#[derive(Clone, Copy, Debug, PartialEq, Eq, Structural)]
pub enum LaunchPhase {
    /// The executable path must be probed; nothing else has happened yet.
    CheckingPath,
    /// The per-id log file is to be opened, created if absent, in append mode.
    OpeningLog,
    /// Execute permission is to be granted, best-effort.
    GrantingExecute,
    /// The detached child is to be spawned through the shell.
    Spawning,
    /// The child is running under this pid.
    Succeeded(u32),
    /// The pipeline aborted; nothing later than the failed step happened.
    Failed(LifecycleError),
}

/// One run of the launch pipeline.
pub struct LaunchSession {
    phase: LaunchPhase,
}

impl LaunchSession {
    /// The pipeline's current phase.
    pub closed spec fn phase_now(&self) -> LaunchPhase {
        self.phase
    }

    /// A fresh pipeline: the path probe comes first.
    pub fn new() -> (s: LaunchSession)
        ensures
            s.phase_now() == LaunchPhase::CheckingPath,
    {
        LaunchSession { phase: LaunchPhase::CheckingPath }
    }

    /// The current phase, for the driver to dispatch on.
    pub fn phase(&self) -> (p: LaunchPhase)
        ensures
            p == self.phase_now(),
    {
        self.phase
    }

    /// The driver probed the executable path. A missing path aborts the
    /// whole launch with `NotFound` here, before any other side effect.
    pub fn on_path_probe(&mut self, exists: bool)
        requires
            old(self).phase_now() == LaunchPhase::CheckingPath,
        ensures
            final(self).phase_now() == (if exists {
                LaunchPhase::OpeningLog
            } else {
                LaunchPhase::Failed(LifecycleError::NotFound)
            }),
    {
        if exists {
            self.phase = LaunchPhase::OpeningLog;
        } else {
            self.phase = LaunchPhase::Failed(LifecycleError::NotFound);
        }
    }

    /// The driver opened (or failed to open) the log file, after ensuring the
    /// log directory exists. Failure aborts the launch with `IoFailure`.
    pub fn on_log_open(&mut self, opened: bool)
        requires
            old(self).phase_now() == LaunchPhase::OpeningLog,
        ensures
            final(self).phase_now() == (if opened {
                LaunchPhase::GrantingExecute
            } else {
                LaunchPhase::Failed(LifecycleError::IoFailure)
            }),
    {
        if opened {
            self.phase = LaunchPhase::GrantingExecute;
        } else {
            self.phase = LaunchPhase::Failed(LifecycleError::IoFailure);
        }
    }

    /// The driver tried to grant execute permission. The step is best-effort:
    /// an already-executable file is the common case, so failure is logged by
    /// the driver and the launch proceeds to the spawn regardless.
    pub fn on_execute_grant(&mut self, _granted: bool)
        requires
            old(self).phase_now() == LaunchPhase::GrantingExecute,
        ensures
            final(self).phase_now() == LaunchPhase::Spawning,
    {
        self.phase = LaunchPhase::Spawning;
    }

    /// The driver asked the operating system to spawn the detached child:
    /// its pid on success, or `SpawnFailed` when process creation was
    /// refused.
    pub fn on_spawn(&mut self, pid: Option<u32>)
        requires
            old(self).phase_now() == LaunchPhase::Spawning,
        ensures
            final(self).phase_now() == (match pid {
                Some(p) => LaunchPhase::Succeeded(p),
                None => LaunchPhase::Failed(LifecycleError::SpawnFailed),
            }),
    {
        match pid {
            Some(p) => {
                self.phase = LaunchPhase::Succeeded(p);
            },
            None => {
                self.phase = LaunchPhase::Failed(LifecycleError::SpawnFailed);
            },
        }
    }

    /// The finished pipeline's result: the new pid, or the error that aborted
    /// it; `None` while steps remain.
    pub fn result(&self) -> (r: Option<Result<u32, LifecycleError>>)
        ensures
            r == (match self.phase_now() {
                LaunchPhase::Succeeded(p) => Some(Ok::<u32, LifecycleError>(p)),
                LaunchPhase::Failed(e) => Some(Err::<u32, LifecycleError>(e)),
                _ => None::<Result<u32, LifecycleError>>,
            }),
    {
        match self.phase {
            LaunchPhase::Succeeded(p) => Some(Ok(p)),
            LaunchPhase::Failed(e) => Some(Err(e)),
            _ => None,
        }
    }
}

} // verus!
