//! Decisions of the process supervisor: when to reuse the owned worker
//! process, when to spawn a fresh one, and what teardown must do.
//!
//! The supervisor's state is modelled as `Option<u64>`: the identity of the
//! owned worker process (for instance its OS process id), or `None` when no
//! worker has been spawned yet. The unverified shell probes the real process
//! and feeds the outcome in; the decision made here is exact, so the laws
//! about respawning are proved once and hold for every call.

use vstd::prelude::*;

verus! {

/// What a non-blocking liveness probe of the owned process reported:
/// it is still running, it has already exited, or the probe itself failed
/// (which the driver treats as "not confirmed alive").
#[derive(Debug, Clone, Copy, PartialEq, Eq)]
pub enum ProbeOutcome {
    Running,
    Exited,
    ProbeFailed,
}

/// The ensure-live decision: hand back the owned worker unchanged, or spawn
/// one fresh process to replace whatever was owned.
#[derive(Debug, Clone, Copy, PartialEq, Eq)]
pub enum EnsureAction {
    Reuse(u64),
    SpawnNew,
}

/// What teardown must do: forcibly terminate the owned process and then
/// collect its exit status (in that order), or nothing when none is owned.
#[derive(Debug, Clone, Copy, PartialEq, Eq)]
pub enum TeardownAction {
    KillThenReap(u64),
    NoProcess,
}

/// The owned worker is kept only when there is one and its liveness probe
/// confirmed it still running; an exited worker, a failed probe, or no
/// worker at all each force a fresh spawn.
pub open spec fn keeps_process(owned: Option<u64>, probe: ProbeOutcome) -> bool {
    owned is Some && probe is Running
}

/// The ensure-live decision as a function of the supervisor's state and the
/// probe outcome.
pub open spec fn ensure_spec(owned: Option<u64>, probe: ProbeOutcome) -> EnsureAction {
    if keeps_process(owned, probe) {
        EnsureAction::Reuse(owned->0)
    } else {
        EnsureAction::SpawnNew
    }
}

/// How many processes one ensure-live step spawns under decision `a`.
pub open spec fn spawns_of(a: EnsureAction) -> nat {
    match a {
        EnsureAction::Reuse(_) => 0,
        EnsureAction::SpawnNew => 1,
    }
}

/// The worker owned after an ensure-live step that decided `a`, where
/// `fresh` is the identity of the newly spawned process if one was spawned.
/// A spawn always replaces the old worker: the two never coexist.
pub open spec fn after_ensure(a: EnsureAction, fresh: u64) -> Option<u64> {
    match a {
        EnsureAction::Reuse(p) => Some(p),
        EnsureAction::SpawnNew => Some(fresh),
    }
}

/// Decides whether the owned worker is reused or replaced, exactly as
/// `ensure_spec` says: reuse only a worker whose probe confirmed it running.
pub fn ensure_decision(owned: Option<u64>, probe: ProbeOutcome) -> (a: EnsureAction)
    ensures
        a == ensure_spec(owned, probe),
{
    match owned {
        Some(p) => match probe {
            ProbeOutcome::Running => EnsureAction::Reuse(p),
            ProbeOutcome::Exited => EnsureAction::SpawnNew,
            ProbeOutcome::ProbeFailed => EnsureAction::SpawnNew,
        },
        None => EnsureAction::SpawnNew,
    }
}

/// The teardown decision as a function of the supervisor's state.
pub open spec fn teardown_spec(owned: Option<u64>) -> TeardownAction {
    match owned {
        Some(p) => TeardownAction::KillThenReap(p),
        None => TeardownAction::NoProcess,
    }
}

/// Decides what teardown must do, exactly as `teardown_spec` says.
pub fn teardown_decision(owned: Option<u64>) -> (a: TeardownAction)
    ensures
        a == teardown_spec(owned),
{
    match owned {
        Some(p) => TeardownAction::KillThenReap(p),
        None => TeardownAction::NoProcess,
    }
}

/// Law: a worker observed alive is never replaced. While the probe before
/// each call confirms the same process running, every ensure-live step
/// decides to reuse it: no process is spawned, and the identity owned after
/// the step is the one owned before it. Applied to two sequential `compile`
/// calls, the driver spawns no second process and the identity is unchanged.
pub proof fn lemma_no_respawn_while_alive(p: u64)
    ensures
        ensure_spec(Some(p), ProbeOutcome::Running) == EnsureAction::Reuse(p),
        spawns_of(ensure_spec(Some(p), ProbeOutcome::Running)) == 0,
        forall|fresh: u64|
            after_ensure(ensure_spec(Some(p), ProbeOutcome::Running), fresh) == Some(p),
{
}

/// Law: a worker not confirmed alive is replaced by exactly one fresh
/// process. If the probe reports the worker exited or fails, or no worker is
/// owned, the ensure-live step before the next request spawns exactly one
/// process, and that fresh process is the one the request is then sent to.
pub proof fn lemma_dead_worker_respawned_once(owned: Option<u64>, probe: ProbeOutcome, fresh: u64)
    requires
        !keeps_process(owned, probe),
    ensures
        ensure_spec(owned, probe) == EnsureAction::SpawnNew,
        spawns_of(ensure_spec(owned, probe)) == 1,
        after_ensure(ensure_spec(owned, probe), fresh) == Some(fresh),
{
}

/// Law: teardown with a live worker owned both signals it for termination
/// and reaps it — the decision names the owned process itself, and the kill
/// is always paired with the wait that collects the exit status.
pub proof fn lemma_teardown_kills_and_reaps(p: u64)
    ensures
        teardown_spec(Some(p)) == TeardownAction::KillThenReap(p),
        teardown_spec(None::<u64>) == TeardownAction::NoProcess,
{
}

} // verus!
