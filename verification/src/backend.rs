//! Dependent-service supervisor state.
//!
//! The supervisor brings up two external network services — the cognitive
//! engine and the LiteLLM proxy — detects whether they are already running,
//! and owns the processes it spawned until teardown. The probing, spawning,
//! polling and killing are performed outside the crate; every decision about
//! what those observations mean for the shared state is made here, one step
//! per function, so the driver loop is free of logic.

use vstd::prelude::*;
use vstd::string::StringExecFns;

verus! {

/// How long the health poll may run before it gives up, in seconds.
pub const POLL_CEILING_SECS: u64 = 60;

/// Milliseconds between two health-poll rounds.
pub const POLL_INTERVAL_MS: u64 = 500;

/// Readiness snapshot read by callers at any time. Callers may observe both
/// flags `false` while startup is still in flight.
pub struct BackendStatus {
    pub engine_ready: bool,
    pub litellm_ready: bool,
    pub error: Option<String>,
}

impl Default for BackendStatus {
    /// Nothing ready, nothing failed.
    fn default() -> (s: Self)
        ensures
            !s.engine_ready,
            !s.litellm_ready,
            s.error is None,
    {
        BackendStatus { engine_ready: false, litellm_ready: false, error: None }
    }
}

/// The supervisor's shared record: the readiness snapshot plus ownership of
/// the child processes this supervisor spawned. `None` means "not spawned by
/// us" — the service may still be running, merely found externally.
pub struct BackendState {
    pub status: BackendStatus,
    pub engine_process: Option<u32>,
    pub litellm_process: Option<u32>,
}

impl BackendState {
    /// A fresh supervisor owns no processes and reports nothing ready.
    pub fn new() -> (s: Self)
        ensures
            !s.status.engine_ready,
            !s.status.litellm_ready,
            s.status.error is None,
            s.engine_process is None,
            s.litellm_process is None,
    {
        BackendState {
            status: Default::default(),
            engine_process: None,
            litellm_process: None,
        }
    }
}

/// A point-in-time copy of the readiness snapshot for a caller.
pub fn get_backend_status(state: &BackendState) -> (r: BackendStatus)
    ensures
        r.engine_ready == state.status.engine_ready,
        r.litellm_ready == state.status.litellm_ready,
        (r.error is Some) == (state.status.error is Some),
        (state.status.error matches Some(orig) ==> r.error matches Some(copy) && copy@ == orig@),
{
    let error = match &state.status.error {
        Some(e) => Some(e.clone()),
        None => None,
    };
    BackendStatus {
        engine_ready: state.status.engine_ready,
        litellm_ready: state.status.litellm_ready,
        error,
    }
}

/// First step of a `start services` invocation: record what the synchronous
/// probe of the two health endpoints found. If the engine already answers,
/// it is marked ready at once (and the proxy too, when it also answers) and
/// no spawning is needed — a second start against externally managed
/// services is a no-op. Nothing is spawned here and no error is recorded.
pub fn apply_probe(state: &mut BackendState, engine_healthy: bool, litellm_healthy: bool) -> (spawn_needed: bool)
    ensures
        spawn_needed == !engine_healthy,
        final(state).status.engine_ready == (old(state).status.engine_ready || engine_healthy),
        final(state).status.litellm_ready == (old(state).status.litellm_ready || (engine_healthy
            && litellm_healthy)),
        final(state).status.error == old(state).status.error,
        final(state).engine_process == old(state).engine_process,
        final(state).litellm_process == old(state).litellm_process,
{
    if engine_healthy {
        state.status.engine_ready = true;
        if litellm_healthy {
            state.status.litellm_ready = true;
        }
        false
    } else {
        true
    }
}

/// Record that the engine directory could not be located. Fatal for this
/// start attempt: the message lands in the shared status and the readiness
/// flags stay as they were.
pub fn record_resolution_failure(state: &mut BackendState, message: String)
    ensures
        final(state).status.error matches Some(m) && m@ == message@,
        final(state).status.engine_ready == old(state).status.engine_ready,
        final(state).status.litellm_ready == old(state).status.litellm_ready,
        final(state).engine_process == old(state).engine_process,
        final(state).litellm_process == old(state).litellm_process,
{
    state.status.error = Some(message);
}

/// Record the outcome of spawning the LiteLLM proxy. Failure is non-fatal —
/// the engine can run with direct keys — so nothing is written beyond the
/// owned handle on success.
pub fn record_litellm_spawn(state: &mut BackendState, pid: Option<u32>)
    ensures
        final(state).litellm_process == (if pid is Some {
            pid
        } else {
            old(state).litellm_process
        }),
        final(state).engine_process == old(state).engine_process,
        final(state).status.engine_ready == old(state).status.engine_ready,
        final(state).status.litellm_ready == old(state).status.litellm_ready,
        final(state).status.error == old(state).status.error,
{
    if pid.is_some() {
        state.litellm_process = pid;
    }
}

/// Record the outcome of spawning the cognitive engine. Success stores the
/// owned handle; failure is recorded in the shared status but does not abort
/// the supervisor.
pub fn record_engine_spawn(state: &mut BackendState, outcome: Result<u32, String>)
    ensures
        (outcome matches Ok(pid) ==> {
            &&& final(state).engine_process == Some(pid)
            &&& final(state).status.error == old(state).status.error
        }),
        (outcome matches Err(e) ==> {
            &&& final(state).engine_process == old(state).engine_process
            &&& final(state).status.error matches Some(m) && m@ == "Engine spawn failed: "@ + e@
        }),
        final(state).litellm_process == old(state).litellm_process,
        final(state).status.engine_ready == old(state).status.engine_ready,
        final(state).status.litellm_ready == old(state).status.litellm_ready,
{
    match outcome {
        Ok(pid) => {
            state.engine_process = Some(pid);
        },
        Err(e) => {
            let mut m = String::from_str("Engine spawn failed: ");
            m.append(e.as_str());
            state.status.error = Some(m);
        },
    }
}

/// One round of the health poll: a flag flips to true the first time its
/// endpoint answers and never falls back to false within the poll.
pub fn poll_step(status: &mut BackendStatus, engine_healthy: bool, litellm_healthy: bool)
    ensures
        final(status).engine_ready == (old(status).engine_ready || engine_healthy),
        final(status).litellm_ready == (old(status).litellm_ready || litellm_healthy),
        final(status).error == old(status).error,
{
    if !status.engine_ready && engine_healthy {
        status.engine_ready = true;
    }
    if !status.litellm_ready && litellm_healthy {
        status.litellm_ready = true;
    }
}

/// Close the poll once its ceiling has expired: whatever is still unhealthy
/// is recorded, with a combined fatal message when both services are down, a
/// fatal message when only the engine is down, and nothing at all when only
/// the optional proxy is missing — the engine can operate without it.
pub fn poll_finish(status: &mut BackendStatus)
    ensures
        final(status).engine_ready == old(status).engine_ready,
        final(status).litellm_ready == old(status).litellm_ready,
        (!old(status).engine_ready && !old(status).litellm_ready ==> (final(status).error matches
            Some(m) && m@ == "Both cognitive-engine and LiteLLM failed to start within timeout."@)),
        (!old(status).engine_ready && old(status).litellm_ready ==> (final(status).error matches
            Some(m) && m@ == "Cognitive-engine failed to start within timeout."@)),
        (old(status).engine_ready ==> final(status).error == old(status).error),
{
    if !status.engine_ready && !status.litellm_ready {
        status.error = Some(
            String::from_str("Both cognitive-engine and LiteLLM failed to start within timeout."),
        );
    } else if !status.engine_ready {
        status.error = Some(String::from_str("Cognitive-engine failed to start within timeout."));
    }
}

/// Ordered teardown on application exit: hand back exactly the process ids
/// this supervisor owns — the engine first, then the proxy — for the caller
/// to kill and wait on, and clear both handles. Services that were found
/// already running externally were never owned here and are never touched.
pub fn shutdown_services(state: &mut BackendState) -> (to_kill: (Option<u32>, Option<u32>))
    ensures
        to_kill.0 == old(state).engine_process,
        to_kill.1 == old(state).litellm_process,
        final(state).engine_process is None,
        final(state).litellm_process is None,
        final(state).status.engine_ready == old(state).status.engine_ready,
        final(state).status.litellm_ready == old(state).status.litellm_ready,
        final(state).status.error == old(state).status.error,
{
    let engine = state.engine_process;
    let litellm = state.litellm_process;
    state.engine_process = None;
    state.litellm_process = None;
    (engine, litellm)
}

/// A readiness flag after a run of poll rounds with the given health
/// observations, starting from `r0`.
pub open spec fn ready_after(r0: bool, healthy: Seq<bool>) -> bool
    decreases healthy.len(),
{
    if healthy.len() == 0 {
        r0
    } else {
        ready_after(r0 || healthy[0], healthy.skip(1))
    }
}

/// One poll round advances the fold by exactly one observation: what
/// `poll_step` does to a flag is what `ready_after` says of the round.
pub proof fn lemma_poll_step_is_fold(r0: bool, h: bool, rest: Seq<bool>)
    ensures
        ready_after(r0, seq![h] + rest) == ready_after(r0 || h, rest),
{
    let obs = seq![h] + rest;
    assert(obs[0] == h);
    assert(obs.skip(1) =~= rest);
}

/// Monotonicity law of the health poll: a readiness flag equals "was already
/// set, or some round saw the endpoint healthy", so once it is true after
/// some round it stays true after every later round — it is never reverted
/// and is effectively set only once within a single start invocation.
pub proof fn lemma_poll_monotone(r0: bool, healthy: Seq<bool>)
    ensures
        ready_after(r0, healthy) == (r0 || exists|i: int|
            0 <= i < healthy.len() && healthy[i]),
        forall|k1: int, k2: int|
            0 <= k1 <= k2 <= healthy.len() ==> (ready_after(r0, healthy.take(k1)) ==> ready_after(
                r0,
                healthy.take(k2),
            )),
{
    lemma_ready_after_exists(r0, healthy);
    assert forall|k1: int, k2: int|
        0 <= k1 <= k2 <= healthy.len() && ready_after(r0, healthy.take(k1)) implies ready_after(
        r0,
        healthy.take(k2),
    ) by {
        lemma_ready_after_exists(r0, healthy.take(k1));
        lemma_ready_after_exists(r0, healthy.take(k2));
        if !r0 {
            let i = choose|i: int| 0 <= i < healthy.take(k1).len() && healthy.take(k1)[i];
            assert(healthy.take(k2)[i]);
        }
    }
}

/// The closed form of `ready_after`: already set, or some round was healthy.
pub proof fn lemma_ready_after_exists(r0: bool, healthy: Seq<bool>)
    ensures
        ready_after(r0, healthy) == (r0 || exists|i: int|
            0 <= i < healthy.len() && healthy[i]),
    decreases healthy.len(),
{
    if healthy.len() > 0 {
        lemma_ready_after_exists(r0 || healthy[0], healthy.skip(1));
        if exists|i: int| 0 <= i < healthy.len() && healthy[i] {
            let i = choose|i: int| 0 <= i < healthy.len() && healthy[i];
            if i > 0 {
                assert(healthy.skip(1)[i - 1]);
            }
        }
        if exists|i: int| 0 <= i < healthy.skip(1).len() && healthy.skip(1)[i] {
            let i = choose|i: int| 0 <= i < healthy.skip(1).len() && healthy.skip(1)[i];
            assert(healthy[i + 1]);
        }
    }
}

} // verus!
