//! Forked-state transaction simulation and block replay.
//!
//! The library holds the decisions of the simulator over plain values: how a
//! transaction request becomes an execution environment, how an execution
//! outcome becomes a result or an error, the cache and commit overlay of the
//! forked state, and the steps of a block replay. The execution engine and the
//! remote chain provider are driven by the caller, which hands their results back.

pub mod block;
pub mod outcome;
pub mod primitives;
pub mod replay;
pub mod simulator;
pub mod state;
pub mod tx_env;

pub use primitives::{Address, Word};
pub use block::{
    block_env_from_header, block_tx_env, parent_block_number, BlockEnvironment, BlockHeader,
    BlockTransaction,
};
pub use outcome::{outcome_to_result, ExecutionOutcome, SimError, TxResult};
pub use replay::{BlockReplay, FetchedBlock, ReplayAction, ReplayPhase};
pub use simulator::{with_trace, CallMode, EvmSimulator, TxResultWithTrace};
pub use state::{AccountInfo, ForkedState, StateCache, StateKey, StateValue};
pub use tx_env::{
    build_tx_env, AccessListItem, EnvDefaults, TransactionRequest, TxEnvironment, TxKind,
    DEFAULT_GAS_LIMIT_CEILING,
};
