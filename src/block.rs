use vstd::prelude::*;

use crate::outcome::SimError;
use crate::primitives::{Address, Word};
use crate::tx_env::{
    build_tx_env, items_or_empty, kind_of, or_zero, AccessListItem,
    EnvDefaults, TransactionRequest, TxEnvironment, DEFAULT_GAS_LIMIT_CEILING,
};

verus! {

/// The fields of a fetched block header that the replay reads.
#[derive(Clone, Copy, Debug, PartialEq, Eq, Structural)]
pub struct BlockHeader {
    pub number: u64,
    pub miner: Address,
    pub timestamp: u64,
    pub difficulty: Word,
    pub gas_limit: Word,
    pub base_fee_per_gas: Option<Word>,
}

/// The block context that every transaction of a replay runs in.
#[derive(Clone, Copy, Debug, PartialEq, Eq, Structural)]
pub struct BlockEnvironment {
    pub number: u64,
    pub coinbase: Address,
    pub timestamp: u64,
    pub difficulty: Word,
    pub gas_limit: Word,
    pub basefee: Option<Word>,
}

/// A transaction as it stands in a fetched block.
#[derive(Clone, Debug, PartialEq, Eq)]
pub struct BlockTransaction {
    pub from: Address,
    pub to: Option<Address>,
    pub value: Word,
    pub input: Vec<u8>,
    pub gas: u64,
    pub gas_price: Option<Word>,
    pub max_priority_fee_per_gas: Option<Word>,
    pub nonce: u64,
    pub access_list: Option<Vec<AccessListItem>>,
}

/// The block environment taken field for field from a header.
pub fn block_env_from_header(h: &BlockHeader) -> (r: BlockEnvironment)
    ensures
        r.number == h.number,
        r.coinbase == h.miner,
        r.timestamp == h.timestamp,
        r.difficulty == h.difficulty,
        r.gas_limit == h.gas_limit,
        r.basefee == h.base_fee_per_gas,
{
    BlockEnvironment {
        number: h.number,
        coinbase: h.miner,
        timestamp: h.timestamp,
        difficulty: h.difficulty,
        gas_limit: h.gas_limit,
        basefee: h.base_fee_per_gas,
    }
}

/// The block whose post-state a replay of block `number` starts from.
pub fn parent_block_number(number: u64) -> (r: Result<u64, SimError>)
    ensures
        number == 0 ==> r == Err::<u64, SimError>(SimError::NoParentBlock),
        number > 0 ==> r == Ok::<u64, SimError>((number - 1) as u64),
{
    if number == 0 {
        Err(SimError::NoParentBlock)
    } else {
        Ok(number - 1)
    }
}

/// `env` is the environment of the block's transaction `tx`: its own sender,
/// target, gas, value, data, nonce and access list, the chain id of the
/// replay, a zero gas price or priority fee where the transaction names none.
pub open spec fn block_tx_resolves(tx: BlockTransaction, chain_id: u64, env: TxEnvironment) -> bool {
    &&& env.caller == tx.from
    &&& env.transact_to == kind_of(tx.to)
    &&& env.value == tx.value
    &&& env.data@ == tx.input@
    &&& env.gas_limit == tx.gas
    &&& env.gas_price == or_zero(tx.gas_price)
    &&& env.gas_priority_fee == or_zero(tx.max_priority_fee_per_gas)
    &&& env.access_list@ == items_or_empty(tx.access_list)
    &&& env.nonce == Some(tx.nonce)
    &&& env.chain_id == chain_id
}

/// The environment of a block's transaction in a replay on chain `chain_id`.
pub fn block_tx_env(tx: BlockTransaction, chain_id: u64) -> (r: TxEnvironment)
    ensures
        block_tx_resolves(tx, chain_id, r),
{
    let req = TransactionRequest {
        caller: Some(tx.from),
        to: tx.to,
        value: Some(tx.value),
        input: Some(tx.input),
        gas_limit: Some(tx.gas),
        gas_price: tx.gas_price,
        gas_priority_fee: tx.max_priority_fee_per_gas,
        access_list: tx.access_list,
        nonce: Some(tx.nonce),
        chain_id: Some(chain_id),
    };
    let defaults = EnvDefaults {
        owner: tx.from,
        gas_limit_ceiling: DEFAULT_GAS_LIMIT_CEILING,
        chain_id,
    };
    build_tx_env(req, &defaults)
}

} // verus!
