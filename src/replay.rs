use vstd::prelude::*;

use crate::block::{
    block_env_from_header, block_tx_env, block_tx_resolves, parent_block_number, BlockEnvironment,
    BlockHeader, BlockTransaction,
};
use crate::outcome::{outcome_to_result, ExecutionOutcome, SimError};
use crate::primitives::{Address, Word};
use crate::state::{apply_changes, ForkedState, StateKey, StateValue};
use crate::tx_env::TxEnvironment;

verus! {

/// A block as the provider returned it, with its transactions in block order.
#[derive(Clone, Debug, PartialEq, Eq)]
pub struct FetchedBlock {
    pub header: BlockHeader,
    pub transactions: Vec<BlockTransaction>,
}

/// Where a block replay stands.
#[derive(Clone, Copy, Debug, PartialEq, Eq, Structural)]
pub enum ReplayPhase {
    /// Nothing fetched yet.
    Created,
    /// The block is fetched; the chain id is awaited.
    StateFetched,
    /// The block environment is built; the forked state is awaited.
    EnvironmentBuilt,
    /// The transaction at this index is executing.
    Replaying(usize),
    /// Every transaction has been replayed.
    Done,
    /// The replay stopped on a fatal error.
    Failed,
}

/// What the driver of a replay does next.
#[derive(Clone, Debug, PartialEq, Eq)]
pub enum ReplayAction {
    /// Execute the transaction at `index` in committing mode, tracing each
    /// instruction to the sink, and report it with `on_tx_executed`.
    Execute { index: usize, env: TxEnvironment, block_env: BlockEnvironment },
    /// The replay is complete.
    Finish,
}

/// The overlay that a sequence of committed change lists leaves, the first
/// list written first.
pub open spec fn overlay_of(history: Seq<Seq<(StateKey, StateValue)>>) -> Map<
    StateKey,
    StateValue,
>
    decreases history.len(),
{
    if history.len() == 0 {
        Map::empty()
    } else {
        apply_changes(overlay_of(history.drop_last()), history.last())
    }
}

/// The decisions of a whole-block replay. A driver performs each action
/// (fetching, resolving the chain id, executing a transaction) and hands the
/// result back; the replay keeps the forked state that the transactions
/// share and commit to, in block order.
pub struct BlockReplay {
    phase: ReplayPhase,
    header: BlockHeader,
    chain_id: u64,
    block_env: BlockEnvironment,
    /// The transactions not yet dispatched, the next one last.
    pending: Vec<BlockTransaction>,
    next: usize,
    backend: ForkedState,
    failures: Vec<(usize, SimError)>,
    txs: Ghost<Seq<BlockTransaction>>,
    history: Ghost<Seq<Seq<(StateKey, StateValue)>>>,
}

impl BlockReplay {
    pub closed spec fn wf(&self) -> bool {
        &&& self.backend.wf()
        &&& self.pending@.len() + self.next == self.txs@.len()
        &&& forall|j: int|
            0 <= j < self.pending@.len() ==> #[trigger] self.pending@[j] == self.txs@[self.txs@.len()
                - 1 - j]
        &&& self.txs@.len() <= usize::MAX
        &&& self.history@.len() == if self.phase is Replaying {
            self.next - 1
        } else {
            self.next as int
        }
        &&& self.backend.overlay_view() == overlay_of(self.history@)
        &&& (self.phase is Replaying || self.phase is Done) ==> self.backend.pinned()
            == self.header.number - 1
        &&& self.phase matches ReplayPhase::Replaying(i) ==> i + 1 == self.next
        &&& self.phase is Done ==> self.pending@.len() == 0
        &&& (self.phase is Created || self.phase is StateFetched || self.phase is EnvironmentBuilt)
            ==> self.next == 0
        &&& !(self.phase is Created) && !(self.phase is Failed) ==> self.header.number > 0
    }

    pub closed spec fn phase_spec(&self) -> ReplayPhase {
        self.phase
    }

    /// The block's transactions, in block order.
    pub closed spec fn txs(&self) -> Seq<BlockTransaction> {
        self.txs@
    }

    /// The number of transactions dispatched so far.
    pub closed spec fn dispatched(&self) -> nat {
        self.next as nat
    }

    /// The change lists committed so far, one per transaction that has
    /// completed, in block order.
    pub closed spec fn history(&self) -> Seq<Seq<(StateKey, StateValue)>> {
        self.history@
    }

    pub closed spec fn header_spec(&self) -> BlockHeader {
        self.header
    }

    pub closed spec fn chain_id_spec(&self) -> u64 {
        self.chain_id
    }

    pub closed spec fn block_env_spec(&self) -> BlockEnvironment {
        self.block_env
    }

    pub closed spec fn state(&self) -> ForkedState {
        self.backend
    }

    /// The per-transaction failures, in the order they came.
    pub closed spec fn failures_spec(&self) -> Seq<(usize, SimError)> {
        self.failures@
    }

    /// A replay that has fetched nothing yet.
    pub fn new() -> (r: BlockReplay)
        ensures
            r.wf(),
            r.phase_spec() == ReplayPhase::Created,
            r.failures_spec().len() == 0,
            r.dispatched() == 0,
    {
        let zero_header = BlockHeader {
            number: 0,
            miner: Address::zero(),
            timestamp: 0,
            difficulty: Word::zero(),
            gas_limit: Word::zero(),
            base_fee_per_gas: None,
        };
        BlockReplay {
            phase: ReplayPhase::Created,
            header: zero_header,
            chain_id: 0,
            block_env: block_env_from_header(&zero_header),
            pending: Vec::new(),
            next: 0,
            backend: ForkedState::new(0),
            failures: Vec::new(),
            txs: Ghost(Seq::empty()),
            history: Ghost(Seq::empty()),
        }
    }

    /// Where the replay stands.
    pub fn phase(&self) -> (r: ReplayPhase)
        ensures
            r == self.phase_spec(),
    {
        self.phase
    }

    /// The forked state that the transactions read and commit to.
    pub fn backend(&self) -> (r: &ForkedState)
        ensures
            *r == self.state(),
    {
        &self.backend
    }

    /// Takes what the provider answered for a read that missed during the
    /// transaction in flight.
    pub fn record_fetch(&mut self, key: StateKey, answer: Result<StateValue, String>) -> (r:
        Result<(), SimError>)
        requires
            old(self).wf(),
        ensures
            final(self).wf(),
            final(self).phase_spec() == old(self).phase_spec(),
            final(self).txs() == old(self).txs(),
            final(self).dispatched() == old(self).dispatched(),
            final(self).history() == old(self).history(),
            final(self).failures_spec() == old(self).failures_spec(),
            final(self).state().pinned() == old(self).state().pinned(),
            final(self).state().overlay_view() == old(self).state().overlay_view(),
            match answer {
                Ok(v) => r is Ok && final(self).state().fetched_view() == if old(
                    self,
                ).state().fetched_view().contains_key(key) {
                    old(self).state().fetched_view()
                } else {
                    old(self).state().fetched_view().insert(key, v)
                },
                Err(m) => r == Err::<(), SimError>(SimError::StateFetchFailure(m))
                    && final(self).state().fetched_view() == old(self).state().fetched_view(),
            },
    {
        self.backend.record_fetch(key, answer)
    }

    /// The per-transaction failures, each with the index of its transaction.
    pub fn failures(&self) -> (r: &Vec<(usize, SimError)>)
        ensures
            r@ == self.failures_spec(),
    {
        &self.failures
    }

    /// Takes the provider's answer to the block request. A provider error, a
    /// missing block and a block without parent (number zero) end the replay;
    /// otherwise its chain id is to be resolved next.
    pub fn on_block(&mut self, answer: Result<Option<FetchedBlock>, String>) -> (r: Result<
        (),
        SimError,
    >)
        requires
            old(self).wf(),
            old(self).phase_spec() == ReplayPhase::Created,
        ensures
            final(self).wf(),
            final(self).failures_spec() == old(self).failures_spec(),
            match answer {
                Err(m) => r == Err::<(), SimError>(SimError::ProviderError(m))
                    && final(self).phase_spec() == ReplayPhase::Failed,
                Ok(None) => r == Err::<(), SimError>(SimError::BlockNotFound)
                    && final(self).phase_spec() == ReplayPhase::Failed,
                Ok(Some(b)) => if b.header.number == 0 {
                    r == Err::<(), SimError>(SimError::NoParentBlock)
                        && final(self).phase_spec() == ReplayPhase::Failed
                } else {
                    &&& r is Ok
                    &&& final(self).phase_spec() == ReplayPhase::StateFetched
                    &&& final(self).header_spec() == b.header
                    &&& final(self).txs() == b.transactions@
                    &&& final(self).dispatched() == 0
                },
            },
    {
        match answer {
            Err(m) => {
                self.phase = ReplayPhase::Failed;
                Err(SimError::ProviderError(m))
            },
            Ok(None) => {
                self.phase = ReplayPhase::Failed;
                Err(SimError::BlockNotFound)
            },
            Ok(Some(b)) => {
                if b.header.number == 0 {
                    self.phase = ReplayPhase::Failed;
                    return Err(SimError::NoParentBlock);
                }
                let ghost all = b.transactions@;
                let mut txs = b.transactions;
                let n: usize = txs.len();
                let mut pending: Vec<BlockTransaction> = Vec::new();
                while txs.len() > 0
                    invariant
                        txs@.len() + pending@.len() == all.len(),
                        txs@ == all.subrange(0, txs@.len() as int),
                        forall|j: int|
                            0 <= j < pending@.len() ==> #[trigger] pending@[j] == all[all.len()
                                - 1 - j],
                    decreases txs@.len(),
                {
                    let t = txs.pop().unwrap();
                    pending.push(t);
                }
                assert(all.len() == n);
                self.header = b.header;
                self.pending = pending;
                self.txs = Ghost(all);
                self.phase = ReplayPhase::StateFetched;
                Ok(())
            },
        }
    }

    /// Takes the resolved chain id and builds the block environment from the
    /// header. On success it returns the block whose state the forked state
    /// is to be pinned at: the parent of the replayed block.
    pub fn on_chain_id(&mut self, answer: Result<u64, String>) -> (r: Result<u64, SimError>)
        requires
            old(self).wf(),
            old(self).phase_spec() == ReplayPhase::StateFetched,
        ensures
            final(self).wf(),
            final(self).failures_spec() == old(self).failures_spec(),
            final(self).txs() == old(self).txs(),
            final(self).header_spec() == old(self).header_spec(),
            final(self).dispatched() == 0,
            match answer {
                Err(m) => r == Err::<u64, SimError>(SimError::ProviderError(m))
                    && final(self).phase_spec() == ReplayPhase::Failed,
                Ok(id) => {
                    &&& r == Ok::<u64, SimError>((old(self).header_spec().number - 1) as u64)
                    &&& final(self).phase_spec() == ReplayPhase::EnvironmentBuilt
                    &&& final(self).chain_id_spec() == id
                    &&& final(self).block_env_spec() == block_env_of(old(self).header_spec())
                },
            },
    {
        match answer {
            Err(m) => {
                self.phase = ReplayPhase::Failed;
                Err(SimError::ProviderError(m))
            },
            Ok(id) => {
                let pinned = parent_block_number(self.header.number);
                match pinned {
                    Ok(p) => {
                        self.chain_id = id;
                        self.block_env = block_env_from_header(&self.header);
                        self.phase = ReplayPhase::EnvironmentBuilt;
                        Ok(p)
                    },
                    Err(e) => {
                        self.phase = ReplayPhase::Failed;
                        Err(e)
                    },
                }
            },
        }
    }

    /// Takes the outcome of setting up the connection that serves the forked
    /// state. On success the forked state is pinned at the parent block and
    /// the first transaction is dispatched (or the replay finishes at once
    /// for an empty block).
    pub fn on_backend_ready(&mut self, answer: Result<(), String>) -> (r: Result<
        ReplayAction,
        SimError,
    >)
        requires
            old(self).wf(),
            old(self).phase_spec() == ReplayPhase::EnvironmentBuilt,
        ensures
            final(self).wf(),
            final(self).failures_spec() == old(self).failures_spec(),
            final(self).txs() == old(self).txs(),
            match answer {
                Err(m) => r == Err::<ReplayAction, SimError>(SimError::ProviderError(m))
                    && final(self).phase_spec() == ReplayPhase::Failed,
                Ok(_) => {
                    &&& r is Ok
                    &&& final(self).state().pinned() == old(self).header_spec().number - 1
                    &&& final(self).state().fetched_view() == Map::<
                        StateKey,
                        StateValue,
                    >::empty()
                    &&& dispatches(*old(self), *final(self), r->Ok_0)
                },
            },
    {
        match answer {
            Err(m) => {
                self.phase = ReplayPhase::Failed;
                Err(SimError::ProviderError(m))
            },
            Ok(()) => {
                self.backend = ForkedState::new(self.header.number - 1);
                proof {
                    assert(self.history@.len() == 0);
                    assert(overlay_of(self.history@) == Map::<StateKey, StateValue>::empty());
                }
                Ok(self.dispatch_next())
            },
        }
    }

    /// Takes the report of the transaction in flight: its changes are
    /// committed whatever its outcome, a revert, halt or engine error is
    /// logged, and the next transaction in block order is dispatched. A
    /// failing transaction never stops the replay.
    pub fn on_tx_executed(
        &mut self,
        result: Result<ExecutionOutcome, SimError>,
        changes: Vec<(StateKey, StateValue)>,
    ) -> (r: ReplayAction)
        requires
            old(self).wf(),
            old(self).phase_spec() is Replaying,
        ensures
            final(self).wf(),
            final(self).txs() == old(self).txs(),
            final(self).history() == old(self).history().push(changes@),
            final(self).state().overlay_view() == apply_changes(
                old(self).state().overlay_view(),
                changes@,
            ),
            final(self).state().pinned() == old(self).state().pinned(),
            final(self).state().fetched_view() == old(self).state().fetched_view(),
            failure_of(result) is None ==> final(self).failures_spec()
                == old(self).failures_spec(),
            failure_of(result) matches Some(e) ==> final(self).failures_spec()
                == old(self).failures_spec().push(
                ((old(self).dispatched() - 1) as usize, e),
            ),
            dispatches(*old(self), *final(self), r),
    {
        let index = self.next - 1;
        let ghost h = self.history@;
        proof {
            assert(h.push(changes@).drop_last() =~= h);
        }
        self.backend.commit(changes);
        self.history = Ghost(h.push(changes@));
        match result {
            Ok(outcome) => {
                match outcome_to_result(outcome) {
                    Ok(_) => {},
                    Err(e) => self.failures.push((index, e)),
                }
            },
            Err(e) => self.failures.push((index, e)),
        }
        self.dispatch_next()
    }

    fn dispatch_next(&mut self) -> (r: ReplayAction)
        requires
            old(self).backend.wf(),
            old(self).pending@.len() + old(self).next == old(self).txs@.len(),
            forall|j: int|
                0 <= j < old(self).pending@.len() ==> #[trigger] old(self).pending@[j]
                    == old(self).txs@[old(self).txs@.len() - 1 - j],
            old(self).history@.len() == old(self).next,
            old(self).txs@.len() <= usize::MAX,
            old(self).backend.overlay_view() == overlay_of(old(self).history@),
            old(self).backend.pinned() == old(self).header.number - 1,
            old(self).header.number > 0,
        ensures
            final(self).wf(),
            final(self).failures@ == old(self).failures@,
            final(self).txs@ == old(self).txs@,
            final(self).backend == old(self).backend,
            final(self).history@ == old(self).history@,
            dispatches(*old(self), *final(self), r),
    {
        match self.pending.pop() {
            None => {
                self.phase = ReplayPhase::Done;
                ReplayAction::Finish
            },
            Some(tx) => {
                let index = self.next;
                let env = block_tx_env(tx, self.chain_id);
                self.next = self.next + 1;
                self.phase = ReplayPhase::Replaying(index);
                ReplayAction::Execute { index, env, block_env: self.block_env }
            },
        }
    }
}

/// The block environment built from a header.
pub open spec fn block_env_of(h: BlockHeader) -> BlockEnvironment {
    BlockEnvironment {
        number: h.number,
        coinbase: h.miner,
        timestamp: h.timestamp,
        difficulty: h.difficulty,
        gas_limit: h.gas_limit,
        basefee: h.base_fee_per_gas,
    }
}

/// The error that a transaction's report is logged with, if any.
pub open spec fn failure_of(result: Result<ExecutionOutcome, SimError>) -> Option<SimError> {
    match result {
        Ok(ExecutionOutcome::Success { .. }) => None,
        Ok(ExecutionOutcome::Revert { output, gas_used }) => Some(
            SimError::ExecutionRevert { output, gas_used },
        ),
        Ok(ExecutionOutcome::Halt { reason }) => Some(SimError::ExecutionHalt { reason }),
        Err(e) => Some(e),
    }
}

/// From `before` to `after` the replay dispatched the next transaction in
/// block order, in committing mode, or finished once none was left.
pub open spec fn dispatches(before: BlockReplay, after: BlockReplay, r: ReplayAction) -> bool {
    let n = before.txs().len();
    let k = before.dispatched();
    if k < n {
        &&& r matches ReplayAction::Execute { index, env, block_env } && index == k
            && block_tx_resolves(before.txs()[k as int], before.chain_id_spec(), env)
            && block_env == before.block_env_spec()
        &&& after.phase_spec() == ReplayPhase::Replaying(k as usize)
        &&& after.dispatched() == k + 1
    } else {
        &&& r == ReplayAction::Finish
        &&& after.phase_spec() == ReplayPhase::Done
        &&& after.dispatched() == k
    }
}

/// While the transaction at index `n` executes, exactly `n` change lists
/// have been committed, those of transactions `0..n` in block order, and the
/// state it sees is what writing them in that order leaves.
pub proof fn lemma_replay_sees_prior_commits(replay: BlockReplay, n: usize)
    requires
        replay.wf(),
        replay.phase_spec() == ReplayPhase::Replaying(n),
    ensures
        replay.history().len() == n,
        replay.dispatched() == n + 1,
        replay.state().overlay_view() == overlay_of(replay.history()),
{
}

} // verus!
