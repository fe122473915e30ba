use sha2::Digest;
use rollup_core::block::{AssemblerError, BlockAssembler, BlockMetadata, SequenceError};
use rollup_core::executed::{
    check_batch_atomicity, ExecutedOperation, OperationIdentity, PendingOperation, PendingPriorityOp, PendingTx,
    TxOutcome,
};
use rollup_core::operations::{
    Close, CloseOp, Deposit, DepositOp, Order, PriorityPayload, SignedTx, Swap, SwapOp, Transfer,
    TransferOp, TxSignature, ValidationError, ZkSyncOp,
};
use rollup_core::primitives::{Address, Token, TokenKind, H256};
use rollup_core::priority::{CorrelatorError, L1Event, PriorityOpCorrelator, PriorityOpKey};
use rollup_core::storage::{from_stored, to_stored, StorageError, StoredOperation};

fn sig() -> TxSignature {
    TxSignature { pub_key: H256::zero(), r: H256::zero(), s: H256::zero() }
}

fn addr(x: u128) -> Address {
    Address { hi: 0, lo: x }
}

fn deposit_payload() -> Deposit {
    Deposit { from: addr(1), to: addr(2), token: 0, amount: 1 }
}

fn deposit_event(hash: u64, block: u64, index: u64) -> L1Event {
    L1Event {
        eth_hash: H256::from_low_u64(hash),
        eth_block: block,
        eth_block_index: index,
        deadline_block: 100,
        payload: PriorityPayload::Deposit(deposit_payload()),
    }
}

fn transfer_op(from: u32, nonce: u32) -> ZkSyncOp {
    ZkSyncOp::Transfer(TransferOp {
        tx: Transfer {
            account_id: from,
            from: addr(1),
            to: addr(2),
            token: 1,
            amount: 1,
            fee: 0,
            nonce,
            signature: sig(),
        },
        from,
        to: 0xdcba,
    })
}

fn pending_tx(op: ZkSyncOp, outcome: TxOutcome, batch_id: Option<u64>, at: i64) -> PendingOperation {
    PendingOperation::Tx(PendingTx { op, outcome, batch_id, created_at: at })
}

fn rejected(reason: &str) -> TxOutcome {
    TxOutcome::Rejected { fail_reason: reason.to_string() }
}

fn metadata() -> BlockMetadata {
    BlockMetadata {
        block_chunks_size: 100,
        commit_gas_limit: 1_000_000,
        verify_gas_limit: 1_500_000,
        block_commitment: H256::zero(),
        timestamp: 0,
    }
}

fn order(account_id: u32) -> Order {
    Order {
        account_id,
        recipient: addr(account_id as u128),
        nonce: 0,
        token_sell: 0,
        token_buy: 1,
        price_sell: 1,
        price_buy: 1,
        amount: 1,
        signature: sig(),
    }
}

fn swap_op(a: u32, b: u32) -> ZkSyncOp {
    ZkSyncOp::Swap(SwapOp {
        tx: Swap {
            submitter_id: a,
            submitter_address: addr(a as u128),
            nonce: 0,
            first_order: order(a),
            second_order: order(b),
            first_amount: 1,
            second_amount: 1,
            fee_token: 0,
            fee: 0,
            signature: sig(),
        },
        submitter: a,
        first_account: a,
        second_account: b,
        first_recipient: 0xbcde,
        second_recipient: 0xedcb,
    })
}

#[test]
fn deposit_flows_from_event_to_block() {
    let mut correlator = PriorityOpCorrelator::new(0);
    let op = correlator.ingest(deposit_event(1, 10, 1)).unwrap();
    assert_eq!(op.serial_id, 0);
    assert_eq!(op.eth_hash, H256(0, 0, 0, 1));

    let mut assembler = BlockAssembler::new(0, 0, false);
    assembler.open(1).unwrap();
    let resolved = ZkSyncOp::Deposit(DepositOp { priority_op: deposit_payload(), account_id: 0xbabe });
    let pending = PendingOperation::PriorityOp(PendingPriorityOp { priority_op: op, op: resolved, created_at: 1_000 });
    assert_eq!(assembler.append(pending, 10).unwrap(), Some(0));
    let block = assembler.finalize(H256::zero(), 0, metadata()).unwrap();
    assert_eq!(block.block_number, 1);
    assert_eq!(block.block_transactions.len(), 1);
    match &block.block_transactions[0] {
        ExecutedOperation::PriorityOp(p) => {
            assert_eq!(p.block_index, 0);
            assert_eq!(p.priority_op, op);
            assert_eq!(p.op, resolved);
        }
        ExecutedOperation::Tx(_) => panic!("expected the deposit"),
    }
    assert_eq!((block.priority_ops_start, block.priority_ops_end), (0, 1));
    assert_eq!(assembler.last_finalized(), 1);
    assert!(!assembler.is_open());
}

#[test]
fn replayed_event_is_rejected() {
    let mut correlator = PriorityOpCorrelator::new(7);
    let e = deposit_event(1, 10, 1);
    assert!(correlator.ingest(e).is_ok());
    assert_eq!(correlator.next_serial_id(), 8);
    assert_eq!(correlator.ingest(e), Err(CorrelatorError::DuplicatePriorityOperation));
    assert_eq!(correlator.next_serial_id(), 8);
    assert_eq!(correlator.assigned().len(), 1);
}

#[test]
fn serial_ids_follow_layer_one_order() {
    let mut correlator = PriorityOpCorrelator::new(0);
    assert_eq!(correlator.ingest(deposit_event(1, 10, 1)).unwrap().serial_id, 0);
    assert_eq!(correlator.ingest(deposit_event(2, 10, 2)).unwrap().serial_id, 1);
    // arrives late: refused, and no id is spent on it
    assert_eq!(correlator.ingest(deposit_event(3, 10, 0)), Err(CorrelatorError::OutOfOrderEvent));
    assert_eq!(correlator.ingest(deposit_event(4, 9, 5)), Err(CorrelatorError::OutOfOrderEvent));
    assert_eq!(correlator.ingest(deposit_event(5, 11, 0)).unwrap().serial_id, 2);
    let ids: Vec<u64> = correlator.assigned().iter().map(|o| o.serial_id).collect();
    assert_eq!(ids, vec![0, 1, 2]);
    let positions: Vec<(u64, u64)> =
        correlator.assigned().iter().map(|o| (o.eth_block, o.eth_block_index)).collect();
    assert_eq!(positions, vec![(10, 1), (10, 2), (11, 0)]);
}

#[test]
fn same_hash_other_index_is_not_a_duplicate() {
    let mut correlator = PriorityOpCorrelator::new(0);
    assert!(correlator.ingest(deposit_event(1, 10, 1)).is_ok());
    assert_eq!(correlator.ingest(deposit_event(1, 10, 2)).unwrap().serial_id, 1);
}

#[test]
fn rejected_batch_of_three() {
    let mut assembler = BlockAssembler::new(0, 0, false);
    assembler.open(1).unwrap();
    for k in 0..3u32 {
        let r = assembler.append(pending_tx(transfer_op(0xbabe, k), rejected("nonce mismatch"), Some(9), 10 + k as i64), 0);
        assert_eq!(r, Ok(None));
    }
    // a member of the same batch cannot succeed
    let r = assembler.append(pending_tx(transfer_op(0xbabe, 3), TxOutcome::Success, Some(9), 20), 0);
    assert_eq!(r, Err(AssemblerError::BatchAtomicityViolation { batch_id: 9 }));
    let block = assembler.finalize(H256::zero(), 0, metadata()).unwrap();
    assert_eq!(block.block_transactions.len(), 3);
    for op in &block.block_transactions {
        match op {
            ExecutedOperation::Tx(tx) => {
                assert!(!tx.success);
                assert_eq!(tx.block_index, None);
                assert_eq!(tx.batch_id, Some(9));
                assert_eq!(tx.fail_reason.as_deref(), Some("nonce mismatch"));
            }
            ExecutedOperation::PriorityOp(_) => panic!("expected a transaction"),
        }
    }
}

#[test]
fn mixed_batch_construction_fails() {
    let members = vec![
        PendingTx { op: transfer_op(1, 0), outcome: TxOutcome::Success, batch_id: Some(4), created_at: 1 },
        PendingTx { op: transfer_op(1, 1), outcome: rejected("no funds"), batch_id: Some(4), created_at: 2 },
    ];
    assert_eq!(check_batch_atomicity(&members).unwrap_err().batch_id, 4);
    let uniform = vec![
        PendingTx { op: transfer_op(1, 0), outcome: TxOutcome::Success, batch_id: Some(4), created_at: 1 },
        PendingTx { op: transfer_op(1, 1), outcome: TxOutcome::Success, batch_id: Some(4), created_at: 2 },
        PendingTx { op: transfer_op(1, 2), outcome: rejected("other batch"), batch_id: Some(5), created_at: 3 },
        PendingTx { op: transfer_op(1, 3), outcome: rejected("alone"), batch_id: None, created_at: 4 },
    ];
    assert!(check_batch_atomicity(&uniform).is_ok());
}

#[test]
fn open_skipping_a_block_fails() {
    let mut assembler = BlockAssembler::new(3, 0, true);
    assert_eq!(
        assembler.open(5),
        Err(AssemblerError::Sequence(SequenceError::WrongBlockNumber { expected: 4, found: 5 }))
    );
    assert_eq!(
        assembler.open(3),
        Err(AssemblerError::Sequence(SequenceError::WrongBlockNumber { expected: 4, found: 3 }))
    );
    assert!(assembler.open(4).is_ok());
    assert_eq!(assembler.open(4), Err(AssemblerError::Sequence(SequenceError::BlockAlreadyOpen)));
}

#[test]
fn append_and_finalize_need_an_open_block() {
    let mut assembler = BlockAssembler::new(0, 0, true);
    let r = assembler.append(pending_tx(transfer_op(1, 0), TxOutcome::Success, None, 1), 0);
    assert_eq!(r, Err(AssemblerError::Sequence(SequenceError::BlockNotOpen)));
    assert_eq!(
        assembler.finalize(H256::zero(), 0, metadata()).unwrap_err(),
        AssemblerError::Sequence(SequenceError::BlockNotOpen)
    );
    assembler.open(1).unwrap();
    assembler.finalize(H256::zero(), 0, metadata()).unwrap();
    let r = assembler.append(pending_tx(transfer_op(1, 0), TxOutcome::Success, None, 1), 0);
    assert_eq!(r, Err(AssemblerError::Sequence(SequenceError::BlockNotOpen)));
}

#[test]
fn empty_block_policy() {
    let mut strict = BlockAssembler::new(0, 0, false);
    strict.open(1).unwrap();
    assert_eq!(
        strict.finalize(H256::zero(), 0, metadata()).unwrap_err(),
        AssemblerError::Sequence(SequenceError::EmptyBlock)
    );
    assert!(strict.is_open());
    let mut lenient = BlockAssembler::new(0, 0, true);
    lenient.open(1).unwrap();
    let block = lenient.finalize(H256::zero(), 0, metadata()).unwrap();
    assert_eq!(block.block_transactions.len(), 0);
    assert_eq!(lenient.last_finalized(), 1);
}

#[test]
fn indices_skip_nothing_and_rejections_get_none() {
    let mut assembler = BlockAssembler::new(0, 0, false);
    assembler.open(1).unwrap();
    assert_eq!(assembler.append(pending_tx(transfer_op(1, 0), TxOutcome::Success, None, 1), 0), Ok(Some(0)));
    assert_eq!(assembler.append(pending_tx(transfer_op(1, 1), rejected("bad nonce"), None, 2), 0), Ok(None));
    assert_eq!(assembler.append(pending_tx(transfer_op(1, 2), TxOutcome::Success, None, 3), 0), Ok(Some(2)));
    assert_eq!(assembler.len(), 3);
    let indices: Vec<Option<u32>> = assembler.transactions().iter().map(|o| o.block_index()).collect();
    assert_eq!(indices, vec![Some(0), None, Some(2)]);
}

#[test]
fn timestamps_must_increase() {
    let mut assembler = BlockAssembler::new(0, 0, false);
    assembler.open(1).unwrap();
    assembler.append(pending_tx(transfer_op(1, 0), TxOutcome::Success, None, 5), 0).unwrap();
    let r = assembler.append(pending_tx(transfer_op(1, 1), TxOutcome::Success, None, 5), 0);
    assert_eq!(r, Err(AssemblerError::Sequence(SequenceError::NonIncreasingTimestamp)));
    let r = assembler.append(pending_tx(transfer_op(1, 1), TxOutcome::Success, None, 4), 0);
    assert_eq!(r, Err(AssemblerError::Sequence(SequenceError::NonIncreasingTimestamp)));
    assert_eq!(assembler.len(), 1);
}

#[test]
fn expired_priority_operation_is_not_executed() {
    let mut correlator = PriorityOpCorrelator::new(0);
    let op = correlator.ingest(deposit_event(1, 10, 1)).unwrap();
    assert!(op.is_expired(101));
    assert!(!op.is_expired(100));
    let mut assembler = BlockAssembler::new(0, 0, false);
    assembler.open(1).unwrap();
    let resolved = ZkSyncOp::Deposit(DepositOp { priority_op: deposit_payload(), account_id: 1 });
    let pending = PendingOperation::PriorityOp(PendingPriorityOp { priority_op: op, op: resolved, created_at: 1 });
    match assembler.append(pending.clone(), 101) {
        Err(AssemblerError::Expired(e)) => {
            assert_eq!(e.serial_id, 0);
            assert_eq!(e.deadline_block, 100);
        }
        other => panic!("unexpected {:?}", other),
    }
    assert_eq!(assembler.append(pending, 100), Ok(Some(0)));
    assert_eq!(assembler.next_priority_serial(), 1);
}

#[test]
fn priority_operations_come_in_serial_order() {
    let mut correlator = PriorityOpCorrelator::new(0);
    let first = correlator.ingest(deposit_event(1, 10, 1)).unwrap();
    let second = correlator.ingest(deposit_event(2, 10, 2)).unwrap();
    let mut assembler = BlockAssembler::new(0, 0, false);
    assembler.open(1).unwrap();
    let resolved = ZkSyncOp::Deposit(DepositOp { priority_op: deposit_payload(), account_id: 1 });
    let r = assembler.append(PendingOperation::PriorityOp(PendingPriorityOp { priority_op: second, op: resolved, created_at: 1 }), 10);
    assert_eq!(
        r,
        Err(AssemblerError::Sequence(SequenceError::UnexpectedPrioritySerialId { expected: 0, found: 1 }))
    );
    let r = assembler.append(PendingOperation::PriorityOp(PendingPriorityOp { priority_op: first, op: resolved, created_at: 1 }), 10);
    assert_eq!(r, Ok(Some(0)));
}

#[test]
fn priority_operation_must_match_its_request() {
    let mut correlator = PriorityOpCorrelator::new(0);
    let op = correlator.ingest(deposit_event(1, 10, 1)).unwrap();
    let mut assembler = BlockAssembler::new(0, 0, false);
    assembler.open(1).unwrap();
    let other = Deposit { from: addr(1), to: addr(2), token: 0, amount: 2 };
    let wrong = ZkSyncOp::Deposit(DepositOp { priority_op: other, account_id: 1 });
    let r = assembler.append(PendingOperation::PriorityOp(PendingPriorityOp { priority_op: op, op: wrong, created_at: 1 }), 10);
    assert_eq!(r, Err(AssemblerError::Validation(ValidationError::PayloadMismatch)));
    let signed = transfer_op(1, 0);
    let r = assembler.append(PendingOperation::PriorityOp(PendingPriorityOp { priority_op: op, op: signed, created_at: 1 }), 10);
    assert_eq!(r, Err(AssemblerError::Validation(ValidationError::NotPriorityOperation)));
    let deposit = ZkSyncOp::Deposit(DepositOp { priority_op: deposit_payload(), account_id: 1 });
    let r = assembler.append(pending_tx(deposit, TxOutcome::Success, None, 1), 10);
    assert_eq!(r, Err(AssemblerError::Validation(ValidationError::NotSignedTransaction)));
}

#[test]
fn operation_forms_are_exclusive() {
    let deposit = ZkSyncOp::Deposit(DepositOp { priority_op: deposit_payload(), account_id: 1 });
    assert_eq!(deposit.try_get_priority_op(), Some(PriorityPayload::Deposit(deposit_payload())));
    assert!(deposit.try_get_tx().is_none());
    let transfer = transfer_op(1, 0);
    assert!(transfer.try_get_priority_op().is_none());
    match transfer.try_get_tx() {
        Some(SignedTx::Transfer(t)) => assert_eq!(t.nonce, 0),
        other => panic!("unexpected {:?}", other),
    }
}

#[test]
fn swap_validation() {
    assert!(swap_op(1, 2).validate().is_ok());
    assert_eq!(swap_op(1, 1).validate(), Err(ValidationError::SwapAccountsNotDistinct));
    assert_eq!(ZkSyncOp::new_signed(swap_op(3, 3)), Err(ValidationError::SwapAccountsNotDistinct));
    let mut mismatched = swap_op(1, 2);
    if let ZkSyncOp::Swap(s) = &mut mismatched {
        s.tx.second_order.account_id = 5;
    }
    assert_eq!(mismatched.validate(), Err(ValidationError::SignerMismatch));
    let mut assembler = BlockAssembler::new(0, 0, false);
    assembler.open(1).unwrap();
    let r = assembler.append(pending_tx(swap_op(1, 1), TxOutcome::Success, None, 1), 0);
    assert_eq!(r, Err(AssemblerError::Validation(ValidationError::SwapAccountsNotDistinct)));
    assert_eq!(assembler.append(pending_tx(swap_op(1, 2), TxOutcome::Success, None, 1), 0), Ok(Some(0)));
}

#[test]
fn signer_must_match_operation() {
    let op = ZkSyncOp::Transfer(TransferOp {
        tx: Transfer { account_id: 2, from: addr(1), to: addr(2), token: 1, amount: 1, fee: 0, nonce: 0, signature: sig() },
        from: 1,
        to: 3,
    });
    assert_eq!(op.validate(), Err(ValidationError::SignerMismatch));
    assert_eq!(ZkSyncOp::new_signed(op), Err(ValidationError::SignerMismatch));
    let deposit = ZkSyncOp::Deposit(DepositOp { priority_op: deposit_payload(), account_id: 1 });
    assert_eq!(ZkSyncOp::new_signed(deposit), Err(ValidationError::NotSignedTransaction));
    assert_eq!(ZkSyncOp::new_signed(transfer_op(1, 0)), Ok(transfer_op(1, 0)));
}

#[test]
fn close_payload_bytes() {
    let close = SignedTx::Close(Close { account: Address { hi: 0x01020304, lo: 5 }, nonce: 0x0a0b0c0d, signature: sig() });
    let mut expected = vec![4u8, 1, 2, 3, 4];
    expected.extend_from_slice(&[0u8; 15]);
    expected.push(5);
    expected.extend_from_slice(&[0x0a, 0x0b, 0x0c, 0x0d]);
    assert_eq!(close.payload_bytes(), expected);
}

#[test]
fn tx_hash_is_sha256_of_payload() {
    let tx = transfer_op(1, 0).try_get_tx().unwrap();
    let payload = tx.payload_bytes();
    assert_eq!(payload.len(), 1 + 4 + 20 + 20 + 4 + 16 + 16 + 4);
    let hash = tx.hash();
    assert_eq!(hash.len(), 32);
    assert_ne!(hash, payload);
    assert_eq!(hash, sha2::Sha256::digest(&payload).to_vec());
    // content-addressed: same transaction, same hash; another nonce, another hash
    assert_eq!(hash, transfer_op(1, 0).try_get_tx().unwrap().hash());
    assert_ne!(hash, transfer_op(1, 1).try_get_tx().unwrap().hash());
}

fn build_block(allow_empty: bool) -> rollup_core::block::Block {
    let mut correlator = PriorityOpCorrelator::new(0);
    let op = correlator.ingest(deposit_event(1, 10, 1)).unwrap();
    let mut assembler = BlockAssembler::new(0, 0, allow_empty);
    assembler.open(1).unwrap();
    let resolved = ZkSyncOp::Deposit(DepositOp { priority_op: deposit_payload(), account_id: 1 });
    assembler.append(PendingOperation::PriorityOp(PendingPriorityOp { priority_op: op, op: resolved, created_at: 1 }), 10).unwrap();
    assembler.append(pending_tx(transfer_op(1, 0), TxOutcome::Success, Some(2), 2), 10).unwrap();
    assembler.append(pending_tx(transfer_op(1, 1), rejected("no funds"), None, 3), 10).unwrap();
    assembler.append(pending_tx(swap_op(1, 2), TxOutcome::Success, None, 4), 10).unwrap();
    assembler.finalize(H256(1, 2, 3, 4), 7, metadata()).unwrap()
}

#[test]
fn finalization_is_deterministic() {
    let a = build_block(false);
    let b = build_block(true);
    assert_eq!(format!("{:?}", a), format!("{:?}", b));
    assert_eq!(a.new_state_root, H256(1, 2, 3, 4));
    assert_eq!(a.fee_account, 7);
    assert_eq!(a.block_chunks_size, 100);
    assert_eq!(a.commit_gas_limit, 1_000_000);
    assert_eq!(a.verify_gas_limit, 1_500_000);
}

#[test]
fn rejected_tx_index_round_trips_as_absent() {
    let mut assembler = BlockAssembler::new(0, 0, false);
    assembler.open(1).unwrap();
    assembler.append(pending_tx(transfer_op(1, 0), rejected("no funds"), Some(3), 1), 0).unwrap();
    let mut block = assembler.finalize(H256::zero(), 0, metadata()).unwrap();
    let op = block.block_transactions.pop().unwrap();
    let row = to_stored(1, op).unwrap();
    match &row {
        StoredOperation::Tx(r) => {
            assert_eq!(r.block_index, None);
            assert!(!r.success);
            assert_eq!(r.batch_id, Some(3));
        }
        StoredOperation::PriorityOp(_) => panic!("expected a transaction row"),
    }
    let (n, back) = from_stored(row).unwrap();
    assert_eq!(n, 1);
    match back {
        ExecutedOperation::Tx(tx) => {
            assert_eq!(tx.block_index, None);
            assert!(!tx.success);
            assert_eq!(tx.fail_reason.as_deref(), Some("no funds"));
        }
        ExecutedOperation::PriorityOp(_) => panic!("expected a transaction"),
    }
}

#[test]
fn sub_millisecond_times_keep_their_order() {
    let mut assembler = BlockAssembler::new(0, 0, false);
    assembler.open(1).unwrap();
    let base: i64 = 1_700_000_000_000_000;
    for k in 0..5u32 {
        assembler.append(pending_tx(transfer_op(1, k), TxOutcome::Success, None, base + k as i64), 0).unwrap();
    }
    let block = assembler.finalize(H256::zero(), 0, metadata()).unwrap();
    let mut times = Vec::new();
    for op in block.block_transactions {
        let row = to_stored(block.block_number, op).unwrap();
        let (_, back) = from_stored(row).unwrap();
        times.push(back.created_at());
    }
    assert_eq!(times, vec![base, base + 1, base + 2, base + 3, base + 4]);
}

#[test]
fn inconsistent_rows_are_refused() {
    let mut assembler = BlockAssembler::new(0, 0, false);
    assembler.open(1).unwrap();
    assembler.append(pending_tx(transfer_op(1, 0), TxOutcome::Success, None, 1), 0).unwrap();
    let mut block = assembler.finalize(H256::zero(), 0, metadata()).unwrap();
    let row = to_stored(1, block.block_transactions.pop().unwrap()).unwrap();
    let mut zeroed = match row.clone() {
        StoredOperation::Tx(r) => r,
        StoredOperation::PriorityOp(_) => panic!("expected a transaction row"),
    };
    assert_eq!(zeroed.block_index, Some(0));
    zeroed.success = false;
    zeroed.fail_reason = Some("x".to_string());
    assert_eq!(from_stored(StoredOperation::Tx(zeroed)).unwrap_err(), StorageError::InconsistentOutcome);
    let mut negative = match row {
        StoredOperation::Tx(r) => r,
        StoredOperation::PriorityOp(_) => panic!("expected a transaction row"),
    };
    negative.block_index = Some(-1);
    assert_eq!(from_stored(StoredOperation::Tx(negative)).unwrap_err(), StorageError::ValueOutOfRange);
}

#[test]
fn values_beyond_the_columns_are_refused() {
    let mut correlator = PriorityOpCorrelator::new(u64::MAX - 1);
    let op = correlator.ingest(deposit_event(1, 10, 1)).unwrap();
    assert_eq!(op.serial_id, u64::MAX - 1);
    assert_eq!(correlator.ingest(deposit_event(2, 10, 2)), Err(CorrelatorError::SerialIdsExhausted));
    let executed = ExecutedOperation::PriorityOp(rollup_core::executed::ExecutedPriorityOp {
        priority_op: op,
        op: ZkSyncOp::Deposit(DepositOp { priority_op: deposit_payload(), account_id: 1 }),
        block_index: 0,
        created_at: 1,
    });
    assert_eq!(to_stored(1, executed).unwrap_err(), StorageError::ValueOutOfRange);
}

#[test]
fn priority_row_round_trip() {
    let mut correlator = PriorityOpCorrelator::new(5);
    let op = correlator.ingest(deposit_event(1, 10, 1)).unwrap();
    let executed = ExecutedOperation::PriorityOp(rollup_core::executed::ExecutedPriorityOp {
        priority_op: op,
        op: ZkSyncOp::Deposit(DepositOp { priority_op: deposit_payload(), account_id: 1 }),
        block_index: 3,
        created_at: 42,
    });
    let row = to_stored(2, executed).unwrap();
    let (n, back) = from_stored(row).unwrap();
    assert_eq!(n, 2);
    match back {
        ExecutedOperation::PriorityOp(p) => {
            assert_eq!(p.priority_op, op);
            assert_eq!(p.block_index, 3);
            assert_eq!(p.created_at, 42);
        }
        ExecutedOperation::Tx(_) => panic!("expected a priority operation"),
    }
}

#[test]
fn identities_of_executed_operations() {
    let block = build_block(false);
    match block.block_transactions[0].identity() {
        OperationIdentity::Priority(key) => {
            assert_eq!(key, PriorityOpKey { eth_hash: H256::from_low_u64(1), eth_block_index: 1 })
        }
        other => panic!("unexpected {:?}", other),
    }
    match block.block_transactions[1].identity() {
        OperationIdentity::TxHash(h) => {
            let tx = transfer_op(1, 0).try_get_tx().unwrap();
            assert_eq!(h, sha2::Sha256::digest(&tx.payload_bytes()).to_vec());
        }
        other => panic!("unexpected {:?}", other),
    }
}

#[test]
fn expired_operations_are_reported_for_refund() {
    let mut correlator = PriorityOpCorrelator::new(0);
    for (k, deadline) in [(1u64, 50u64), (2, 150), (3, 60), (4, 200)] {
        let mut e = deposit_event(k, 10, k);
        e.deadline_block = deadline;
        correlator.ingest(e).unwrap();
    }
    let ids: Vec<u64> = correlator.expired(0, 100).iter().map(|o| o.serial_id).collect();
    assert_eq!(ids, vec![0, 2]);
    let ids: Vec<u64> = correlator.expired(1, 100).iter().map(|o| o.serial_id).collect();
    assert_eq!(ids, vec![2]);
    assert!(correlator.expired(0, 50).is_empty());
}

#[test]
fn tokens() {
    let rif = Token::new(1, addr(9), "RIF", 18, TokenKind::Fungible);
    assert_eq!((rif.id, rif.address, rif.symbol.as_str(), rif.decimals, rif.kind), (1, addr(9), "RIF", 18, TokenKind::Fungible));
    let nft = Token::new_nft(100000, "NFT-100000");
    assert_eq!(nft.kind, TokenKind::NonFungible);
    assert_eq!(nft.decimals, 0);
    assert!(nft.address.is_zero());
    assert_eq!(nft.symbol, "NFT-100000");
}
