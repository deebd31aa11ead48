use vstd::prelude::*;

verus! {

/// What the execution engine reports for one transaction. No other kind of
/// outcome exists.
#[derive(Clone, Debug, PartialEq, Eq)]
pub enum ExecutionOutcome {
    Success { output: Vec<u8>, gas_used: u64, gas_refunded: u64 },
    Revert { output: Vec<u8>, gas_used: u64 },
    Halt { reason: String },
}

/// The result of a transaction that succeeded.
#[derive(Clone, Debug, PartialEq, Eq)]
pub struct TxResult {
    pub output: Vec<u8>,
    pub gas_used: u64,
    pub gas_refunded: u64,
}

/// The errors of the simulator, each distinguishable by kind.
#[derive(Clone, Debug, PartialEq, Eq)]
pub enum SimError {
    /// The remote provider failed (a network or RPC error).
    ProviderError(String),
    /// The requested block does not exist.
    BlockNotFound,
    /// The block has number zero, so no parent state exists to pin.
    NoParentBlock,
    /// The transaction ran and reverted.
    ExecutionRevert { output: Vec<u8>, gas_used: u64 },
    /// The engine aborted the transaction.
    ExecutionHalt { reason: String },
    /// The forked state could not resolve a read.
    StateFetchFailure(String),
}

/// What an outcome becomes: a result on success, otherwise the error that
/// carries the revert's output and gas, or the halt's reason.
pub open spec fn outcome_result(o: ExecutionOutcome) -> Result<TxResult, SimError> {
    match o {
        ExecutionOutcome::Success { output, gas_used, gas_refunded } => Ok(
            TxResult { output, gas_used, gas_refunded },
        ),
        ExecutionOutcome::Revert { output, gas_used } => Err(
            SimError::ExecutionRevert { output, gas_used },
        ),
        ExecutionOutcome::Halt { reason } => Err(SimError::ExecutionHalt { reason }),
    }
}

/// Maps an engine outcome to the simulator's result. A revert never yields a
/// result: its error holds exactly the output and gas the engine reported.
pub fn outcome_to_result(o: ExecutionOutcome) -> (r: Result<TxResult, SimError>)
    ensures
        r == outcome_result(o),
        r is Ok <==> o is Success,
        o matches ExecutionOutcome::Revert { output, gas_used } ==> r matches Err(
            SimError::ExecutionRevert { output: out, gas_used: g },
        ) && out@ == output@ && g == gas_used,
{
    match o {
        ExecutionOutcome::Success { output, gas_used, gas_refunded } => Ok(
            TxResult { output, gas_used, gas_refunded },
        ),
        ExecutionOutcome::Revert { output, gas_used } => Err(
            SimError::ExecutionRevert { output, gas_used },
        ),
        ExecutionOutcome::Halt { reason } => Err(SimError::ExecutionHalt { reason }),
    }
}

} // verus!
