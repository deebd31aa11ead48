use evm_simulator::{
    block_env_from_header, block_tx_env, build_tx_env, outcome_to_result, parent_block_number,
    with_trace, AccessListItem, AccountInfo, Address, BlockHeader, BlockReplay,
    BlockTransaction, CallMode, EnvDefaults, EvmSimulator, ExecutionOutcome, FetchedBlock,
    ForkedState, ReplayAction, ReplayPhase, SimError, StateCache, StateKey, StateValue,
    TransactionRequest, TxKind, TxResult, Word, DEFAULT_GAS_LIMIT_CEILING,
};

fn addr(n: u64) -> Address {
    Address { hi: 0, mid: 0, lo: n }
}

fn word(n: u64) -> Word {
    Word::from_u64(n)
}

fn empty_request() -> TransactionRequest {
    TransactionRequest {
        caller: None,
        to: None,
        value: None,
        input: None,
        gas_limit: None,
        gas_price: None,
        gas_priority_fee: None,
        access_list: None,
        nonce: None,
        chain_id: None,
    }
}

fn defaults() -> EnvDefaults {
    EnvDefaults::new(addr(0xaa), 1)
}

#[test]
fn missing_gas_limit_takes_ceiling() {
    let env = build_tx_env(empty_request(), &defaults());
    assert_eq!(env.gas_limit, 5_000_000);
    assert_eq!(DEFAULT_GAS_LIMIT_CEILING, 5_000_000);
}

#[test]
fn configured_ceiling_is_used() {
    let d = defaults().with_gas_limit_ceiling(30_000_000);
    let env = build_tx_env(empty_request(), &d);
    assert_eq!(env.gas_limit, 30_000_000);
}

#[test]
fn explicit_gas_limit_is_kept() {
    let mut req = empty_request();
    req.gas_limit = Some(21_000);
    let env = build_tx_env(req, &defaults());
    assert_eq!(env.gas_limit, 21_000);
}

#[test]
fn request_without_target_creates() {
    let env = build_tx_env(empty_request(), &defaults());
    assert_eq!(env.transact_to, TxKind::Create);
}

#[test]
fn request_with_target_calls_it() {
    let mut req = empty_request();
    req.to = Some(addr(7));
    let env = build_tx_env(req, &defaults());
    assert_eq!(env.transact_to, TxKind::Call(addr(7)));
}

#[test]
fn omitted_fields_take_defaults() {
    let env = build_tx_env(empty_request(), &defaults());
    assert_eq!(env.caller, addr(0xaa));
    assert_eq!(env.value, Word::zero());
    assert!(env.data.is_empty());
    assert_eq!(env.gas_price, Word::zero());
    assert_eq!(env.gas_priority_fee, Word::zero());
    assert!(env.access_list.is_empty());
    assert_eq!(env.nonce, None);
    assert_eq!(env.chain_id, 1);
}

#[test]
fn explicit_fields_win_over_defaults() {
    let mut req = empty_request();
    req.caller = Some(addr(3));
    req.value = Some(word(100));
    req.input = Some(vec![1, 2, 3]);
    req.gas_price = Some(word(9));
    req.gas_priority_fee = Some(word(2));
    req.nonce = Some(4);
    req.chain_id = Some(10);
    let env = build_tx_env(req, &defaults());
    assert_eq!(env.caller, addr(3));
    assert_eq!(env.value, word(100));
    assert_eq!(env.data, vec![1, 2, 3]);
    assert_eq!(env.gas_price, word(9));
    assert_eq!(env.gas_priority_fee, word(2));
    assert_eq!(env.nonce, Some(4));
    assert_eq!(env.chain_id, 10);
}

#[test]
fn access_list_is_carried_item_by_item() {
    let items = vec![
        AccessListItem { address: addr(2), storage_keys: vec![word(1), word(1)] },
        AccessListItem { address: addr(1), storage_keys: vec![] },
        AccessListItem { address: addr(2), storage_keys: vec![word(5)] },
    ];
    let mut req = empty_request();
    req.access_list = Some(items.clone());
    let env = build_tx_env(req, &defaults());
    assert_eq!(env.access_list, items);
}

#[test]
fn success_yields_result() {
    let r = outcome_to_result(ExecutionOutcome::Success {
        output: vec![0xde, 0xad],
        gas_used: 21_000,
        gas_refunded: 100,
    });
    assert_eq!(r, Ok(TxResult { output: vec![0xde, 0xad], gas_used: 21_000, gas_refunded: 100 }));
}

#[test]
fn revert_yields_error_with_output_and_gas() {
    let r = outcome_to_result(ExecutionOutcome::Revert { output: vec![8, 195, 121, 160], gas_used: 30_123 });
    assert_eq!(r, Err(SimError::ExecutionRevert { output: vec![8, 195, 121, 160], gas_used: 30_123 }));
}

#[test]
fn halt_yields_error_with_reason() {
    let r = outcome_to_result(ExecutionOutcome::Halt { reason: "OutOfGas".to_string() });
    assert_eq!(r, Err(SimError::ExecutionHalt { reason: "OutOfGas".to_string() }));
}

#[test]
fn trace_is_paired_with_result() {
    let res = TxResult { output: vec![1], gas_used: 5, gas_refunded: 0 };
    let r = with_trace("{\"trace\":[]}".to_string(), Ok(res.clone())).unwrap();
    assert_eq!(r.result, res);
    assert_eq!(r.trace, "{\"trace\":[]}");
    let e = with_trace("t".to_string(), Err(SimError::BlockNotFound));
    assert_eq!(e, Err(SimError::BlockNotFound));
}

#[test]
fn cache_holds_one_entry_per_key_and_keeps_first_value() {
    let mut c = StateCache::new();
    let k = StateKey::Storage(addr(1), word(2));
    assert_eq!(c.count_entries(&k), 0);
    c.insert_if_absent(k, StateValue::Slot(word(3)));
    c.insert_if_absent(k, StateValue::Slot(word(4)));
    assert_eq!(c.count_entries(&k), 1);
    assert_eq!(c.get(&k), Some(&StateValue::Slot(word(3))));
    c.put(k, StateValue::Slot(word(5)));
    assert_eq!(c.count_entries(&k), 1);
    assert_eq!(c.get(&k), Some(&StateValue::Slot(word(5))));
    assert!(!c.contains(&StateKey::Account(addr(1))));
}

#[test]
fn failed_fetch_is_state_fetch_failure() {
    let mut st = ForkedState::new(100);
    let k = StateKey::Account(addr(1));
    let r = st.record_fetch(k, Err("connection reset".to_string()));
    assert_eq!(r, Err(SimError::StateFetchFailure("connection reset".to_string())));
    assert_eq!(st.read(&k), None);
    assert_eq!(st.pinned_block(), 100);
}

#[test]
fn commit_overlays_fetched_state() {
    let mut st = ForkedState::new(10);
    let k = StateKey::Storage(addr(1), word(0));
    st.record_fetch(k, Ok(StateValue::Slot(word(1)))).unwrap();
    st.commit(vec![(k, StateValue::Slot(word(2))), (k, StateValue::Slot(word(3)))]);
    assert_eq!(st.read(&k), Some(&StateValue::Slot(word(3))));
    assert_eq!(st.fetched_entries(&k), 1);
}

#[test]
fn staticcall_twice_gives_same_result_and_state() {
    let mut sim = EvmSimulator::new(defaults(), 100);
    let slot = StateKey::Storage(addr(9), word(0));
    sim.record_fetch(slot, Ok(StateValue::Slot(word(42)))).unwrap();
    let mut results = Vec::new();
    for _ in 0..2 {
        let mut req = empty_request();
        req.to = Some(addr(9));
        let env = sim.tx_env(req);
        assert_eq!(env.transact_to, TxKind::Call(addr(9)));
        let seen = sim.backend.read(&slot).cloned();
        assert_eq!(seen, Some(StateValue::Slot(word(42))));
        let r = sim.finish(
            CallMode::Discard,
            ExecutionOutcome::Success { output: vec![42], gas_used: 2_100, gas_refunded: 0 },
            vec![(slot, StateValue::Slot(word(43)))],
        );
        results.push(r);
    }
    assert_eq!(results[0], results[1]);
    assert_eq!(sim.backend.read(&slot), Some(&StateValue::Slot(word(42))));
}

#[test]
fn call_commits_for_later_calls() {
    let mut sim = EvmSimulator::new(defaults(), 100);
    let acct = StateKey::Account(addr(5));
    let info = AccountInfo { balance: word(1), nonce: 0, code_hash: Word::zero() };
    sim.record_fetch(acct, Ok(StateValue::Account(info))).unwrap();
    let after = AccountInfo { balance: word(0), nonce: 1, code_hash: Word::zero() };
    let r = sim.finish(
        CallMode::Commit,
        ExecutionOutcome::Revert { output: vec![], gas_used: 50 },
        vec![(acct, StateValue::Account(after))],
    );
    assert_eq!(r, Err(SimError::ExecutionRevert { output: vec![], gas_used: 50 }));
    assert_eq!(sim.backend.read(&acct), Some(&StateValue::Account(after)));
}

#[test]
fn staticcall_reading_pinned_slot() {
    // state pinned at block 100; the engine reads one slot of the target
    let mut sim = EvmSimulator::new(defaults(), 100);
    let slot = StateKey::Storage(addr(0x77), word(3));
    let mut req = empty_request();
    req.to = Some(addr(0x77));
    req.input = Some(vec![0x54]);
    let _env = sim.tx_env(req);
    assert_eq!(sim.backend.read(&slot), None);
    sim.record_fetch(slot, Ok(StateValue::Slot(word(0x1234)))).unwrap();
    let value = match sim.backend.read(&slot) {
        Some(StateValue::Slot(w)) => *w,
        _ => panic!("slot not served"),
    };
    let output = vec![(value.w0 >> 8) as u8, value.w0 as u8];
    let r = sim
        .finish(CallMode::Discard, ExecutionOutcome::Success { output, gas_used: 2_100, gas_refunded: 0 }, vec![])
        .unwrap();
    assert_eq!(r.output, vec![0x12, 0x34]);
    assert_eq!(sim.backend.fetched_entries(&slot), 1);
    assert_eq!(sim.backend.pinned_block(), 100);
}

#[test]
fn parent_of_block() {
    assert_eq!(parent_block_number(1_000_000), Ok(999_999));
    assert_eq!(parent_block_number(0), Err(SimError::NoParentBlock));
}

fn header(number: u64) -> BlockHeader {
    BlockHeader {
        number,
        miner: addr(0xc0),
        timestamp: 1_700_000_000,
        difficulty: word(0),
        gas_limit: word(30_000_000),
        base_fee_per_gas: Some(word(7)),
    }
}

#[test]
fn block_env_copies_header() {
    let env = block_env_from_header(&header(12));
    assert_eq!(env.number, 12);
    assert_eq!(env.coinbase, addr(0xc0));
    assert_eq!(env.timestamp, 1_700_000_000);
    assert_eq!(env.gas_limit, word(30_000_000));
    assert_eq!(env.basefee, Some(word(7)));
}

fn block_tx(from: u64, nonce: u64) -> BlockTransaction {
    BlockTransaction {
        from: addr(from),
        to: Some(addr(0x99)),
        value: word(1),
        input: vec![nonce as u8],
        gas: 50_000,
        gas_price: None,
        max_priority_fee_per_gas: None,
        nonce,
        access_list: None,
    }
}

#[test]
fn block_tx_env_fills_fee_and_chain() {
    let mut tx = block_tx(1, 3);
    tx.to = None;
    let env = block_tx_env(tx, 1);
    assert_eq!(env.caller, addr(1));
    assert_eq!(env.transact_to, TxKind::Create);
    assert_eq!(env.gas_limit, 50_000);
    assert_eq!(env.gas_price, Word::zero());
    assert_eq!(env.gas_priority_fee, Word::zero());
    assert_eq!(env.nonce, Some(3));
    assert_eq!(env.chain_id, 1);
}

fn start_replay(block: FetchedBlock) -> (BlockReplay, ReplayAction) {
    let mut replay = BlockReplay::new();
    assert_eq!(replay.phase(), ReplayPhase::Created);
    replay.on_block(Ok(Some(block))).unwrap();
    assert_eq!(replay.phase(), ReplayPhase::StateFetched);
    let pinned = replay.on_chain_id(Ok(1)).unwrap();
    assert_eq!(replay.phase(), ReplayPhase::EnvironmentBuilt);
    let action = replay.on_backend_ready(Ok(())).unwrap();
    assert_eq!(replay.backend().pinned_block(), pinned);
    (replay, action)
}

#[test]
fn replay_traces_all_three_even_when_second_halts() {
    let block = FetchedBlock {
        header: header(1_000_000),
        transactions: vec![block_tx(1, 0), block_tx(2, 0), block_tx(3, 0)],
    };
    let (mut replay, mut action) = start_replay(block);
    assert_eq!(replay.backend().pinned_block(), 999_999);
    let mut executed = Vec::new();
    loop {
        match action {
            ReplayAction::Execute { index, env, block_env } => {
                assert_eq!(block_env.number, 1_000_000);
                executed.push((index, env.caller));
                let outcome = if index == 1 {
                    ExecutionOutcome::Halt { reason: "OutOfGas".to_string() }
                } else {
                    ExecutionOutcome::Success { output: vec![], gas_used: 21_000, gas_refunded: 0 }
                };
                action = replay.on_tx_executed(Ok(outcome), vec![]);
            }
            ReplayAction::Finish => break,
        }
    }
    assert_eq!(executed, vec![(0, addr(1)), (1, addr(2)), (2, addr(3))]);
    assert_eq!(replay.phase(), ReplayPhase::Done);
    assert_eq!(
        replay.failures(),
        &vec![(1usize, SimError::ExecutionHalt { reason: "OutOfGas".to_string() })]
    );
}

#[test]
fn replay_commits_are_seen_by_later_transactions() {
    let block = FetchedBlock { header: header(5), transactions: vec![block_tx(1, 0), block_tx(1, 1)] };
    let (mut replay, action) = start_replay(block);
    assert!(matches!(action, ReplayAction::Execute { index: 0, .. }));
    let k = StateKey::Storage(addr(0x99), word(0));
    let next = replay.on_tx_executed(
        Err(SimError::StateFetchFailure("gone".to_string())),
        vec![(k, StateValue::Slot(word(11)))],
    );
    assert!(matches!(next, ReplayAction::Execute { index: 1, .. }));
    assert_eq!(replay.phase(), ReplayPhase::Replaying(1));
    assert_eq!(replay.backend().read(&k), Some(&StateValue::Slot(word(11))));
    let last = replay.on_tx_executed(
        Ok(ExecutionOutcome::Success { output: vec![], gas_used: 1, gas_refunded: 0 }),
        vec![],
    );
    assert_eq!(last, ReplayAction::Finish);
    assert_eq!(replay.failures().len(), 1);
}

#[test]
fn empty_block_finishes_at_once() {
    let block = FetchedBlock { header: header(8), transactions: vec![] };
    let (replay, action) = start_replay(block);
    assert_eq!(action, ReplayAction::Finish);
    assert_eq!(replay.phase(), ReplayPhase::Done);
}

#[test]
fn replay_fatal_errors() {
    let mut a = BlockReplay::new();
    assert_eq!(a.on_block(Ok(None)), Err(SimError::BlockNotFound));
    assert_eq!(a.phase(), ReplayPhase::Failed);

    let mut b = BlockReplay::new();
    assert_eq!(
        b.on_block(Err("503".to_string())),
        Err(SimError::ProviderError("503".to_string()))
    );

    let mut c = BlockReplay::new();
    let genesis = FetchedBlock { header: header(0), transactions: vec![] };
    assert_eq!(c.on_block(Ok(Some(genesis))), Err(SimError::NoParentBlock));

    let mut d = BlockReplay::new();
    d.on_block(Ok(Some(FetchedBlock { header: header(3), transactions: vec![] }))).unwrap();
    assert_eq!(d.on_chain_id(Err("rpc".to_string())), Err(SimError::ProviderError("rpc".to_string())));
    assert_eq!(d.phase(), ReplayPhase::Failed);

    let mut e = BlockReplay::new();
    e.on_block(Ok(Some(FetchedBlock { header: header(3), transactions: vec![] }))).unwrap();
    assert_eq!(e.on_chain_id(Ok(1)), Ok(2));
    assert_eq!(
        e.on_backend_ready(Err("no runtime".to_string())),
        Err(SimError::ProviderError("no runtime".to_string()))
    );
    assert_eq!(e.phase(), ReplayPhase::Failed);
}
