use vstd::prelude::*;

use crate::outcome::{outcome_result, outcome_to_result, ExecutionOutcome, SimError, TxResult};
use crate::state::{apply_changes, visible, ForkedState, StateKey, StateValue};
use crate::tx_env::{build_tx_env, resolves, EnvDefaults, TransactionRequest, TxEnvironment};

verus! {

/// Whether an execution's state changes persist ("call") or are discarded
/// ("staticcall").
#[derive(Clone, Copy, Debug, PartialEq, Eq, Structural)]
pub enum CallMode {
    Commit,
    Discard,
}

/// A local result paired with the provider's trace of the same request.
#[derive(Clone, Debug, PartialEq, Eq)]
pub struct TxResultWithTrace {
    pub result: TxResult,
    pub trace: String,
}

/// A long-lived simulator bound to one pinned block: it resolves requests
/// with its defaults and keeps the forked state across calls, so repeated
/// simulations against the same block re-use what was fetched and committed.
pub struct EvmSimulator {
    pub defaults: EnvDefaults,
    pub backend: ForkedState,
}

impl EvmSimulator {
    pub open spec fn wf(&self) -> bool {
        self.backend.wf()
    }

    /// A simulator over the state of `pinned_block`, with nothing fetched yet.
    pub fn new(defaults: EnvDefaults, pinned_block: u64) -> (r: EvmSimulator)
        ensures
            r.wf(),
            r.defaults == defaults,
            r.backend.pinned() == pinned_block,
            r.backend.fetched_view() == Map::<StateKey, StateValue>::empty(),
            r.backend.overlay_view() == Map::<StateKey, StateValue>::empty(),
    {
        EvmSimulator { defaults, backend: ForkedState::new(pinned_block) }
    }

    /// The environment that a request runs in under this simulator's defaults.
    pub fn tx_env(&self, req: TransactionRequest) -> (r: TxEnvironment)
        ensures
            resolves(req, self.defaults, r),
    {
        build_tx_env(req, &self.defaults)
    }

    /// Takes what the provider answered for a read that missed.
    pub fn record_fetch(&mut self, key: StateKey, answer: Result<StateValue, String>) -> (r:
        Result<(), SimError>)
        requires
            old(self).wf(),
        ensures
            final(self).wf(),
            final(self).defaults == old(self).defaults,
            final(self).backend.pinned() == old(self).backend.pinned(),
            final(self).backend.overlay_view() == old(self).backend.overlay_view(),
            match answer {
                Ok(v) => r is Ok && final(self).backend.fetched_view() == if old(
                    self,
                ).backend.fetched_view().contains_key(key) {
                    old(self).backend.fetched_view()
                } else {
                    old(self).backend.fetched_view().insert(key, v)
                },
                Err(m) => r == Err::<(), SimError>(SimError::StateFetchFailure(m))
                    && final(self).backend.fetched_view() == old(self).backend.fetched_view(),
            },
    {
        self.backend.record_fetch(key, answer)
    }

    /// Ends one execution: in `Commit` mode its changes are written to the
    /// overlay whatever the outcome, in `Discard` mode they are dropped. The
    /// outcome becomes the result, a revert or halt becomes an error.
    pub fn finish(
        &mut self,
        mode: CallMode,
        outcome: ExecutionOutcome,
        changes: Vec<(StateKey, StateValue)>,
    ) -> (r: Result<TxResult, SimError>)
        requires
            old(self).wf(),
        ensures
            final(self).wf(),
            final(self).defaults == old(self).defaults,
            final(self).backend.pinned() == old(self).backend.pinned(),
            final(self).backend.fetched_view() == old(self).backend.fetched_view(),
            final(self).backend.overlay_view() == overlay_after(
                old(self).backend.overlay_view(),
                mode,
                changes@,
            ),
            r == outcome_result(outcome),
    {
        if mode == CallMode::Commit {
            self.backend.commit(changes);
        }
        outcome_to_result(outcome)
    }
}

/// The overlay after an execution in `mode` with `changes`.
pub open spec fn overlay_after(
    overlay: Map<StateKey, StateValue>,
    mode: CallMode,
    changes: Seq<(StateKey, StateValue)>,
) -> Map<StateKey, StateValue> {
    match mode {
        CallMode::Commit => apply_changes(overlay, changes),
        CallMode::Discard => overlay,
    }
}

/// Pairs the provider's trace of a request with the local execution of it.
/// The trace was taken before the execution; a failed execution fails the
/// whole.
pub fn with_trace(trace: String, result: Result<TxResult, SimError>) -> (r: Result<
    TxResultWithTrace,
    SimError,
>)
    ensures
        match result {
            Ok(res) => r == Ok::<TxResultWithTrace, SimError>(
                TxResultWithTrace { result: res, trace },
            ),
            Err(e) => r == Err::<TxResultWithTrace, SimError>(e),
        },
{
    match result {
        Ok(res) => Ok(TxResultWithTrace { result: res, trace }),
        Err(e) => Err(e),
    }
}

/// A staticcall leaves the state that executions see as it was: whatever its
/// outcome and changes, and whatever it fetched from the pinned block, every
/// read after it sees what it saw before, so a second staticcall of the same
/// request runs against the same state.
pub proof fn lemma_staticcall_keeps_state(
    overlay: Map<StateKey, StateValue>,
    fetched_before: Map<StateKey, StateValue>,
    fetched_after: Map<StateKey, StateValue>,
    changes: Seq<(StateKey, StateValue)>,
    key: StateKey,
)
    requires
        forall|k: StateKey| #[trigger]
            fetched_before.contains_key(k) ==> fetched_after.contains_key(k)
                && fetched_after[k] == fetched_before[k],
        visible(overlay, fetched_before, key) is Some,
    ensures
        visible(overlay_after(overlay, CallMode::Discard, changes), fetched_after, key)
            == visible(overlay, fetched_before, key),
{
}

} // verus!
