use vstd::prelude::*;

use crate::primitives::{Address, Word};

verus! {

/// The gas limit given to a transaction whose request names none. This is a
/// bound that keeps simulations finite, not a protocol value: `EnvDefaults`
/// lets a caller choose another.
pub const DEFAULT_GAS_LIMIT_CEILING: u64 = 5_000_000;

/// One entry of an access list: an address and the storage keys that the
/// transaction declares it will touch there.
#[derive(Clone, Debug, PartialEq, Eq)]
pub struct AccessListItem {
    pub address: Address,
    pub storage_keys: Vec<Word>,
}

/// Where a transaction goes: a call to an existing account, or the creation
/// of a contract whose init code is the transaction's data.
#[derive(Clone, Copy, Debug, PartialEq, Eq, Structural)]
pub enum TxKind {
    Call(Address),
    Create,
}

/// A transaction as a caller describes it; every field may be left out.
#[derive(Clone, Debug, PartialEq, Eq)]
pub struct TransactionRequest {
    pub caller: Option<Address>,
    pub to: Option<Address>,
    pub value: Option<Word>,
    pub input: Option<Vec<u8>>,
    pub gas_limit: Option<u64>,
    pub gas_price: Option<Word>,
    pub gas_priority_fee: Option<Word>,
    pub access_list: Option<Vec<AccessListItem>>,
    pub nonce: Option<u64>,
    pub chain_id: Option<u64>,
}

/// The contextual defaults that fill what a request leaves out.
#[derive(Clone, Copy, Debug, PartialEq, Eq, Structural)]
pub struct EnvDefaults {
    /// The caller of a request that names none.
    pub owner: Address,
    /// The gas limit of a request that names none.
    pub gas_limit_ceiling: u64,
    /// The chain id of a request that names none.
    pub chain_id: u64,
}

/// The fully resolved transaction that the execution engine runs.
#[derive(Clone, Debug, PartialEq, Eq)]
pub struct TxEnvironment {
    pub caller: Address,
    pub transact_to: TxKind,
    pub value: Word,
    pub data: Vec<u8>,
    pub gas_limit: u64,
    pub gas_price: Word,
    pub gas_priority_fee: Word,
    pub access_list: Vec<AccessListItem>,
    /// `None` leaves the nonce unchecked.
    pub nonce: Option<u64>,
    pub chain_id: u64,
}

impl EnvDefaults {
    /// Defaults with the standard gas-limit ceiling.
    pub fn new(owner: Address, chain_id: u64) -> (r: EnvDefaults)
        ensures
            r.owner == owner,
            r.gas_limit_ceiling == DEFAULT_GAS_LIMIT_CEILING,
            r.chain_id == chain_id,
    {
        EnvDefaults { owner, gas_limit_ceiling: DEFAULT_GAS_LIMIT_CEILING, chain_id }
    }

    /// The same defaults with another gas-limit ceiling.
    pub fn with_gas_limit_ceiling(self, ceiling: u64) -> (r: EnvDefaults)
        ensures
            r == (EnvDefaults { gas_limit_ceiling: ceiling, ..self }),
    {
        EnvDefaults { gas_limit_ceiling: ceiling, ..self }
    }
}

/// The kind of transaction that a target gives: a call to it, or a creation.
pub open spec fn kind_of(to: Option<Address>) -> TxKind {
    match to {
        Some(a) => TxKind::Call(a),
        None => TxKind::Create,
    }
}

pub open spec fn or_zero(w: Option<Word>) -> Word {
    match w {
        Some(w) => w,
        None => Word::spec_zero(),
    }
}

pub open spec fn bytes_or_empty(b: Option<Vec<u8>>) -> Seq<u8> {
    match b {
        Some(b) => b@,
        None => Seq::empty(),
    }
}

pub open spec fn items_or_empty(l: Option<Vec<AccessListItem>>) -> Seq<AccessListItem> {
    match l {
        Some(l) => l@,
        None => Seq::empty(),
    }
}

/// `env` is what `req` resolves to under `defaults`: each field is the
/// request's own value, else the contextual default (the owner as caller, the
/// configured gas ceiling, the configured chain id), else zero or empty. A
/// request without a target creates a contract. The access list is carried
/// over item by item, in its order, unchanged.
pub open spec fn resolves(req: TransactionRequest, defaults: EnvDefaults, env: TxEnvironment) -> bool {
    &&& env.caller == req.caller.unwrap_or(defaults.owner)
    &&& env.transact_to == kind_of(req.to)
    &&& env.value == or_zero(req.value)
    &&& env.data@ == bytes_or_empty(req.input)
    &&& env.gas_limit == req.gas_limit.unwrap_or(defaults.gas_limit_ceiling)
    &&& env.gas_price == or_zero(req.gas_price)
    &&& env.gas_priority_fee == or_zero(req.gas_priority_fee)
    &&& env.access_list@ == items_or_empty(req.access_list)
    &&& env.nonce == req.nonce
    &&& env.chain_id == req.chain_id.unwrap_or(defaults.chain_id)
}

/// Resolves a request into the environment that the engine runs.
pub fn build_tx_env(req: TransactionRequest, defaults: &EnvDefaults) -> (r: TxEnvironment)
    ensures
        resolves(req, *defaults, r),
{
    let caller = match req.caller {
        Some(c) => c,
        None => defaults.owner,
    };
    let transact_to = match req.to {
        Some(a) => TxKind::Call(a),
        None => TxKind::Create,
    };
    let value = match req.value {
        Some(v) => v,
        None => Word::zero(),
    };
    let data = match req.input {
        Some(d) => d,
        None => Vec::new(),
    };
    let gas_limit = match req.gas_limit {
        Some(g) => g,
        None => defaults.gas_limit_ceiling,
    };
    let gas_price = match req.gas_price {
        Some(p) => p,
        None => Word::zero(),
    };
    let gas_priority_fee = match req.gas_priority_fee {
        Some(p) => p,
        None => Word::zero(),
    };
    let access_list = match req.access_list {
        Some(l) => l,
        None => Vec::new(),
    };
    let chain_id = match req.chain_id {
        Some(c) => c,
        None => defaults.chain_id,
    };
    TxEnvironment {
        caller,
        transact_to,
        value,
        data,
        gas_limit,
        gas_price,
        gas_priority_fee,
        access_list,
        nonce: req.nonce,
        chain_id,
    }
}

} // verus!
