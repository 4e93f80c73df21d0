//! The lifecycle supervisor: the orchestrator over the registry, the stop
//! protocol and the launch pipeline.
//!
//! Per logical id the state machine is plain: no registry entry, an entry
//! after a successful start, no entry again after a stop. The registry is
//! consulted and updated only inside these short operations — never across
//! the slow operating-system work, which the drivers perform between calls —
//! and port occupancy, not the registry, is what stop and restart trust:
//! the tracked process may have died, or another process may hold the port.

use vstd::prelude::*;

use crate::outcome::{spec_stop_outcome, StopOutcome};
use crate::registry::{spec_lookup, Registry};
use crate::restart::{RestartPhase, RestartSession};
use crate::launch::LaunchPhase;
use crate::stop::{is_initial_session, occupants_view, StopSession};

verus! {

/// One supervisor instance, owning its registry. Its model is the registry's:
/// a map from logical id to last-known pid.
pub struct Supervisor {
    registry: Registry,
}

impl View for Supervisor {
    type V = Map<Seq<char>, u32>;

    closed spec fn view(&self) -> Map<Seq<char>, u32> {
        self.registry@
    }
}

impl Supervisor {
    /// Validity, inherited from the registry.
    pub closed spec fn wf(&self) -> bool {
        self.registry.wf()
    }

    /// A fresh supervisor: the registry starts empty on every instance —
    /// it is a cache of what this instance spawned, not persisted state.
    pub fn new() -> (s: Supervisor)
        ensures
            s.wf(),
            s@ == Map::<Seq<char>, u32>::empty(),
    {
        Supervisor { registry: Registry::new() }
    }

    /// The pid last spawned for `id`, if this instance spawned one. Absence
    /// does not imply nothing runs on the id's port.
    pub fn known_pid(&self, id: &String) -> (r: Option<u32>)
        requires
            self.wf(),
        ensures
            r == spec_lookup(self@, id@),
    {
        self.registry.get(id)
    }

    /// How many services this instance currently tracks.
    pub fn tracked_count(&self) -> (n: usize)
        requires
            self.wf(),
        ensures
            n == self@.dom().len(),
    {
        self.registry.count()
    }

    /// A start's launch pipeline succeeded: record the new pid for `id`,
    /// overwriting any earlier entry. On a failed launch nothing is recorded
    /// and the registry is left untouched — which is why recording is a
    /// separate step, taken only with a pid in hand.
    pub fn record_start(&mut self, id: String, pid: u32)
        requires
            old(self).wf(),
        ensures
            final(self).wf(),
            final(self)@ == old(self)@.insert(id@, pid),
    {
        self.registry.insert(id, pid);
    }

    /// Begins a stop: removes and captures the registry entry for `id`, then
    /// hands out the termination protocol over the port's real occupants
    /// (`occupants` as introspection reported them, `None` when the platform
    /// has no such tool).
    pub fn begin_stop(&mut self, id: &String, occupants: Option<Vec<u32>>) -> (s: StopSession)
        requires
            old(self).wf(),
        ensures
            final(self).wf(),
            final(self)@ == old(self)@.remove(id@),
            is_initial_session(s, spec_lookup(old(self)@, id@), occupants_view(occupants)),
    {
        let known = self.registry.remove(id);
        StopSession::new(known, occupants)
    }

    /// Begins a force restart: removes the registry entry for `id` and hands
    /// out the composed termination-settle-launch session.
    pub fn begin_restart(&mut self, id: &String, occupants: Option<Vec<u32>>) -> (s:
        RestartSession)
        requires
            old(self).wf(),
        ensures
            final(self).wf(),
            final(self)@ == old(self)@.remove(id@),
            s.restart_phase() == RestartPhase::Terminating,
            is_initial_session(s.stop_session(), spec_lookup(old(self)@, id@), occupants_view(occupants)),
            s.launch_session().phase_now() == LaunchPhase::CheckingPath,
    {
        let known = self.registry.remove(id);
        RestartSession::new(known, occupants)
    }

    /// Whether the port is live, judged purely by what introspection
    /// reported: occupied means at least one occupant; an unavailable tool
    /// degrades to "not running", never to an error.
    pub fn port_in_use(occupants: &Option<Vec<u32>>) -> (b: bool)
        ensures
            b == (match *occupants {
                Some(v) => v@.len() > 0,
                None => false,
            }),
    {
        match occupants {
            Some(v) => v.len() > 0,
            None => false,
        }
    }
}

/// After a successful start the registry holds exactly one entry for the id,
/// carrying the pid the launch returned; every other id is untouched; and a
/// second start for the same id overwrites the entry rather than leaking a
/// second one.
pub proof fn lemma_start_tracks_exactly_one(
    reg: Map<Seq<char>, u32>,
    id: Seq<char>,
    pid: u32,
    pid2: u32,
)
    ensures
        spec_lookup(reg.insert(id, pid), id) == Some(pid),
        forall|other: Seq<char>|
            other != id ==> #[trigger] spec_lookup(reg.insert(id, pid), other) == spec_lookup(
                reg,
                other,
            ),
        reg.insert(id, pid).insert(id, pid2) == reg.insert(id, pid2),
{
    assert(reg.insert(id, pid).insert(id, pid2) =~= reg.insert(id, pid2));
}

/// For a logical id never passed to a start — no registry entry exists for
/// it — a stop succeeds with the "nothing was running" outcome exactly when
/// the port had no real occupant.
pub proof fn lemma_stop_unknown_id(reg: Map<Seq<char>, u32>, id: Seq<char>, occupants: Seq<u32>)
    requires
        !reg.contains_key(id),
    ensures
        (spec_stop_outcome(spec_lookup(reg, id), occupants) == StopOutcome::NothingRunning)
            <==> occupants.len() == 0,
{
}

/// Stopping is idempotent: the first stop clears the registry entry, so a
/// second stop finds none; and once the first stop's termination has taken
/// effect and the port is empty again, the second reports "nothing was
/// running" — still a success.
pub proof fn lemma_stop_idempotent(
    reg: Map<Seq<char>, u32>,
    id: Seq<char>,
    occupants_after: Seq<u32>,
)
    requires
        occupants_after.len() == 0,
    ensures
        !reg.remove(id).contains_key(id),
        spec_stop_outcome(spec_lookup(reg.remove(id), id), occupants_after)
            == StopOutcome::NothingRunning,
{
}

/// A force restart leaves the registry with the freshly spawned pid for the
/// id; provided that pid was not reused from the port's previous occupants
/// within the settle window, it is distinct from every pid that was live on
/// the port before the call.
pub proof fn lemma_restart_fresh_pid(
    reg: Map<Seq<char>, u32>,
    id: Seq<char>,
    occupants_before: Seq<u32>,
    new_pid: u32,
)
    requires
        forall|i: int| 0 <= i < occupants_before.len() ==> occupants_before[i] != new_pid,
    ensures
        spec_lookup(reg.remove(id).insert(id, new_pid), id) == Some(new_pid),
        forall|i: int|
            0 <= i < occupants_before.len() ==> occupants_before[i] != reg.remove(id).insert(
                id,
                new_pid,
            )[id],
{
}

} // verus!
