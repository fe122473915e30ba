//! Blocks and the assembler that builds them: operations are appended in
//! execution order into an open block, which is then finalized.
use vstd::prelude::*;
use crate::executed::{
    ExecutedOperation, ExecutedPriorityOp, ExecutedTx, PendingOperation, PendingTx, TxOutcome,
};
use crate::operations::ValidationError;
use crate::priority::ExpiredPriorityOperation;
use crate::primitives::{AccountId, BlockNumber, H256};

verus! {

/// Block-level accounting values handed to `finalize`.
#[derive(Clone, Copy, Debug, PartialEq, Eq, Structural)]
pub struct BlockMetadata {
    pub block_chunks_size: u64,
    pub commit_gas_limit: u64,
    pub verify_gas_limit: u64,
    pub block_commitment: H256,
    pub timestamp: u64,
}

/// A finalized block: immutable once built.
#[derive(Clone, Debug)]
pub struct Block {
    pub block_number: BlockNumber,
    pub new_state_root: H256,
    pub fee_account: AccountId,
    /// In execution order; an included operation's index is its position.
    pub block_transactions: Vec<ExecutedOperation>,
    /// Serial ids of the priority operations processed: from the start, up
    /// to but not including the end.
    pub priority_ops_start: u64,
    pub priority_ops_end: u64,
    pub block_chunks_size: u64,
    pub commit_gas_limit: u64,
    pub verify_gas_limit: u64,
    pub block_commitment: H256,
    pub timestamp: u64,
}

pub struct BlockView {
    pub block_number: BlockNumber,
    pub new_state_root: H256,
    pub fee_account: AccountId,
    pub block_transactions: Seq<ExecutedOperation>,
    pub priority_ops_start: u64,
    pub priority_ops_end: u64,
    pub block_chunks_size: u64,
    pub commit_gas_limit: u64,
    pub verify_gas_limit: u64,
    pub block_commitment: H256,
    pub timestamp: u64,
}

impl View for Block {
    type V = BlockView;

    open spec fn view(&self) -> BlockView {
        BlockView {
            block_number: self.block_number,
            new_state_root: self.new_state_root,
            fee_account: self.fee_account,
            block_transactions: self.block_transactions@,
            priority_ops_start: self.priority_ops_start,
            priority_ops_end: self.priority_ops_end,
            block_chunks_size: self.block_chunks_size,
            commit_gas_limit: self.commit_gas_limit,
            verify_gas_limit: self.verify_gas_limit,
            block_commitment: self.block_commitment,
            timestamp: self.timestamp,
        }
    }
}

/// Misuse of the assembler's sequence of states.
#[derive(Clone, Copy, Debug, PartialEq, Eq, Structural)]
pub enum SequenceError {
    /// `append` or `finalize` without an open block.
    BlockNotOpen,
    /// `open` while a block is open.
    BlockAlreadyOpen,
    /// `open` with a number other than the last finalized one plus one.
    WrongBlockNumber { expected: u64, found: BlockNumber },
    /// The operation's time is not after that of the operation before it.
    NonIncreasingTimestamp,
    /// The priority operation is not the next one in serial order.
    UnexpectedPrioritySerialId { expected: u64, found: u64 },
    /// `finalize` on an empty block where empty blocks are not permitted.
    EmptyBlock,
}

#[derive(Clone, Copy, Debug, PartialEq, Eq, Structural)]
pub enum AssemblerError {
    Sequence(SequenceError),
    Validation(ValidationError),
    Expired(ExpiredPriorityOperation),
    /// Appending would give one batch both outcomes.
    BatchAtomicityViolation { batch_id: u64 },
}

/// The abstract state of an assembler. While a block is open its number is
/// one more than the last finalized one.
pub struct AssemblerState {
    pub allow_empty_blocks: bool,
    pub last_finalized: BlockNumber,
    pub is_open: bool,
    /// Serial id that the next priority operation must carry.
    pub next_priority_serial: u64,
    /// Serial id expected of the first priority operation of the open block.
    pub block_first_priority_serial: u64,
    pub transactions: Seq<ExecutedOperation>,
}

impl AssemblerState {
    pub open spec fn open_block_number(self) -> int {
        self.last_finalized + 1
    }

    pub open spec fn inv(self) -> bool {
        &&& !self.is_open ==> self.transactions.len() == 0
        &&& self.is_open ==> self.open_block_number() <= u32::MAX
        &&& self.block_first_priority_serial <= self.next_priority_serial
        &&& self.transactions.len() <= u32::MAX
        &&& forall|i: int|
            0 <= i < self.transactions.len() ==> (#[trigger] self.transactions[i]).wf()
        &&& forall|i: int|
            0 <= i < self.transactions.len() ==> (#[trigger] self.transactions[i]).block_index_spec()
                == if self.transactions[i].succeeded_spec() {
                Some(i as u32)
            } else {
                None
            }
        &&& forall|i: int, j: int|
            0 <= i < j < self.transactions.len() ==> (#[trigger] self.transactions[i]).created_at_spec()
                < (#[trigger] self.transactions[j]).created_at_spec()
        &&& forall|i: int, j: int|
            0 <= i < self.transactions.len() && 0 <= j < self.transactions.len() && (
            #[trigger] self.transactions[i]).batch_id_spec() is Some
                && self.transactions[i].batch_id_spec() == (
            #[trigger] self.transactions[j]).batch_id_spec()
                ==> self.transactions[i].succeeded_spec() == self.transactions[j].succeeded_spec()
    }

    pub open spec fn open_outcome(self, n: BlockNumber) -> Result<(), AssemblerError> {
        if self.is_open {
            Err(AssemblerError::Sequence(SequenceError::BlockAlreadyOpen))
        } else if n != self.open_block_number() {
            Err(
                AssemblerError::Sequence(
                    SequenceError::WrongBlockNumber {
                        expected: (self.last_finalized + 1) as u64,
                        found: n,
                    },
                ),
            )
        } else {
            Ok(())
        }
    }

    pub open spec fn after_open(self, n: BlockNumber) -> AssemblerState {
        if self.open_outcome(n) is Ok {
            AssemblerState {
                is_open: true,
                block_first_priority_serial: self.next_priority_serial,
                transactions: Seq::empty(),
                ..self
            }
        } else {
            self
        }
    }

    /// Some member of `batch_id`'s batch in the open block has the other outcome.
    pub open spec fn batch_conflict(self, batch_id: Option<u64>, success: bool) -> bool {
        batch_id is Some && exists|i: int|
            0 <= i < self.transactions.len() && (#[trigger] self.transactions[i]).batch_id_spec()
                == batch_id && self.transactions[i].succeeded_spec() != success
    }

    /// The operation that `append` records for `p`.
    pub open spec fn executed_form(self, p: PendingOperation) -> ExecutedOperation {
        let idx = self.transactions.len() as u32;
        match p {
            PendingOperation::PriorityOp(pp) => ExecutedOperation::PriorityOp(
                ExecutedPriorityOp {
                    priority_op: pp.priority_op,
                    op: pp.op,
                    block_index: idx,
                    created_at: pp.created_at,
                },
            ),
            PendingOperation::Tx(pt) => ExecutedOperation::Tx(
                ExecutedTx {
                    signed_tx: pt.op.signed_tx_spec().unwrap(),
                    op: pt.op,
                    success: pt.outcome.is_success_spec(),
                    fail_reason: match pt.outcome {
                        TxOutcome::Success => None,
                        TxOutcome::Rejected { fail_reason } => Some(fail_reason),
                    },
                    block_index: if pt.outcome.is_success_spec() {
                        Some(idx)
                    } else {
                        None
                    },
                    batch_id: pt.batch_id,
                    created_at: pt.created_at,
                },
            ),
        }
    }

    /// What `append` returns: the index given to the operation (none for a
    /// rejected transaction), or why it was refused.
    pub open spec fn append_outcome(self, p: PendingOperation, current_eth_block: u64) -> Result<
        Option<u32>,
        AssemblerError,
    > {
        if !self.is_open {
            Err(AssemblerError::Sequence(SequenceError::BlockNotOpen))
        } else if self.transactions.len() > 0 && p.created_at_spec()
            <= self.transactions.last().created_at_spec() {
            Err(AssemblerError::Sequence(SequenceError::NonIncreasingTimestamp))
        } else {
            match p {
                PendingOperation::PriorityOp(pp) => if pp.op.priority_payload_spec() is None {
                    Err(AssemblerError::Validation(ValidationError::NotPriorityOperation))
                } else if pp.op.priority_payload_spec() != Some(pp.priority_op.data) {
                    Err(AssemblerError::Validation(ValidationError::PayloadMismatch))
                } else if current_eth_block > pp.priority_op.deadline_block {
                    Err(
                        AssemblerError::Expired(
                            ExpiredPriorityOperation {
                                serial_id: pp.priority_op.serial_id,
                                deadline_block: pp.priority_op.deadline_block,
                            },
                        ),
                    )
                } else if pp.priority_op.serial_id != self.next_priority_serial
                    || pp.priority_op.serial_id == u64::MAX {
                    Err(
                        AssemblerError::Sequence(
                            SequenceError::UnexpectedPrioritySerialId {
                                expected: self.next_priority_serial,
                                found: pp.priority_op.serial_id,
                            },
                        ),
                    )
                } else {
                    Ok(Some(self.transactions.len() as u32))
                },
                PendingOperation::Tx(pt) => if pt.op.signed_tx_spec() is None {
                    Err(AssemblerError::Validation(ValidationError::NotSignedTransaction))
                } else if pt.op.validity() is Err {
                    Err(AssemblerError::Validation(pt.op.validity()->Err_0))
                } else if self.batch_conflict(pt.batch_id, pt.outcome.is_success_spec()) {
                    Err(AssemblerError::BatchAtomicityViolation { batch_id: pt.batch_id->Some_0 })
                } else if pt.outcome.is_success_spec() {
                    Ok(Some(self.transactions.len() as u32))
                } else {
                    Ok(None)
                },
            }
        }
    }

    pub open spec fn after_append(self, p: PendingOperation, current_eth_block: u64) -> AssemblerState {
        if self.append_outcome(p, current_eth_block) is Ok {
            AssemblerState {
                next_priority_serial: match p {
                    PendingOperation::PriorityOp(pp) => (pp.priority_op.serial_id + 1) as u64,
                    PendingOperation::Tx(_) => self.next_priority_serial,
                },
                transactions: self.transactions.push(self.executed_form(p)),
                ..self
            }
        } else {
            self
        }
    }

    pub open spec fn finalize_outcome(self) -> Result<(), AssemblerError> {
        if !self.is_open {
            Err(AssemblerError::Sequence(SequenceError::BlockNotOpen))
        } else if self.transactions.len() == 0 && !self.allow_empty_blocks {
            Err(AssemblerError::Sequence(SequenceError::EmptyBlock))
        } else {
            Ok(())
        }
    }

    pub open spec fn after_finalize(self) -> AssemblerState {
        if self.finalize_outcome() is Ok {
            AssemblerState {
                last_finalized: (self.last_finalized + 1) as u32,
                is_open: false,
                block_first_priority_serial: self.next_priority_serial,
                transactions: Seq::empty(),
                ..self
            }
        } else {
            self
        }
    }

    /// The block that finalizing the open block yields.
    pub open spec fn finalized_view(self, state_root: H256, fee_account: AccountId, metadata: BlockMetadata) -> BlockView {
        BlockView {
            block_number: (self.last_finalized + 1) as u32,
            new_state_root: state_root,
            fee_account,
            block_transactions: self.transactions,
            priority_ops_start: self.block_first_priority_serial,
            priority_ops_end: self.next_priority_serial,
            block_chunks_size: metadata.block_chunks_size,
            commit_gas_limit: metadata.commit_gas_limit,
            verify_gas_limit: metadata.verify_gas_limit,
            block_commitment: metadata.block_commitment,
            timestamp: metadata.timestamp,
        }
    }

    pub proof fn lemma_after_append_keeps_inv(self, p: PendingOperation, current_eth_block: u64)
        requires
            self.inv(),
            self.transactions.len() < u32::MAX,
        ensures
            self.after_append(p, current_eth_block).inv(),
    {
        let s = self.after_append(p, current_eth_block);
        if self.append_outcome(p, current_eth_block) is Ok {
            let n = self.transactions.len() as int;
            let e = self.executed_form(p);
            assert(s.transactions[n] == e);
            assert forall|i: int, j: int|
                0 <= i < j < s.transactions.len() implies (#[trigger] s.transactions[i]).created_at_spec()
                < (#[trigger] s.transactions[j]).created_at_spec() by {
                if j == n && i < n - 1 {
                    assert(self.transactions[i].created_at_spec()
                        < self.transactions[n - 1].created_at_spec());
                }
            }
            assert forall|i: int, j: int|
                0 <= i < s.transactions.len() && 0 <= j < s.transactions.len() && (
                #[trigger] s.transactions[i]).batch_id_spec() is Some
                    && s.transactions[i].batch_id_spec() == (
                #[trigger] s.transactions[j]).batch_id_spec()
                    implies s.transactions[i].succeeded_spec()
                == s.transactions[j].succeeded_spec() by {
                if i == n && j < n {
                    assert(self.transactions[j].batch_id_spec() == e.batch_id_spec());
                } else if j == n && i < n {
                    assert(self.transactions[i].batch_id_spec() == e.batch_id_spec());
                }
            }
            assert forall|i: int| 0 <= i < s.transactions.len() implies (#[trigger] s.transactions[i]).wf() by {
                if i == n {
                    match p {
                        PendingOperation::Tx(pt) => {
                            pt.op.lemma_exactly_one_form();
                        },
                        PendingOperation::PriorityOp(_) => {},
                    }
                }
            }
        }
    }
}

impl AssemblerState {
    /// The state after appending each operation of `ops` in order, each with
    /// the layer-1 height it was appended at.
    pub open spec fn after_appends(self, ops: Seq<(PendingOperation, u64)>) -> AssemblerState
        decreases ops.len(),
    {
        if ops.len() == 0 {
            self
        } else {
            self.after_appends(ops.drop_last()).after_append(ops.last().0, ops.last().1)
        }
    }

    /// The two states agree on everything that goes into a block.
    pub open spec fn same_content(self, other: AssemblerState) -> bool {
        &&& self.last_finalized == other.last_finalized
        &&& self.is_open == other.is_open
        &&& self.next_priority_serial == other.next_priority_serial
        &&& self.block_first_priority_serial == other.block_first_priority_serial
        &&& self.transactions == other.transactions
    }

    proof fn lemma_after_appends_same_content(self, other: AssemblerState, ops: Seq<(PendingOperation, u64)>)
        requires
            self.same_content(other),
        ensures
            self.after_appends(ops).same_content(other.after_appends(ops)),
        decreases ops.len(),
    {
        if ops.len() > 0 {
            self.lemma_after_appends_same_content(other, ops.drop_last());
        }
    }

    /// Finalization is deterministic: two assemblers at the same block, with
    /// the same operations appended so far, that are then fed the same
    /// ordered sequence of appends and finalized with the same state root,
    /// fee account and metadata yield identical blocks, whatever their
    /// empty-block policy.
    pub proof fn lemma_finalize_deterministic(
        self,
        other: AssemblerState,
        ops: Seq<(PendingOperation, u64)>,
        state_root: H256,
        fee_account: AccountId,
        metadata: BlockMetadata,
    )
        requires
            self.same_content(other),
        ensures
            self.after_appends(ops).finalized_view(state_root, fee_account, metadata)
                == other.after_appends(ops).finalized_view(state_root, fee_account, metadata),
            self.after_appends(ops).finalize_outcome() is Ok && other.after_appends(
                ops,
            ).finalize_outcome() is Ok ==> self.after_appends(ops).after_finalize().same_content(
                other.after_appends(ops).after_finalize(),
            ),
    {
        self.lemma_after_appends_same_content(other, ops);
    }

    /// Members of one batch in a block share their outcome.
    pub proof fn lemma_batch_members_share_outcome(self, i: int, j: int)
        requires
            self.inv(),
            0 <= i < self.transactions.len(),
            0 <= j < self.transactions.len(),
            self.transactions[i].batch_id_spec() is Some,
            self.transactions[i].batch_id_spec() == self.transactions[j].batch_id_spec(),
        ensures
            self.transactions[i].succeeded_spec() == self.transactions[j].succeeded_spec(),
    {
    }

    /// A transaction whose batch already has a member with the other outcome
    /// in the open block cannot be appended: a batch cannot be mixed.
    pub proof fn lemma_mixed_batch_refused(self, p: PendingOperation, current_eth_block: u64, i: int)
        requires
            self.inv(),
            0 <= i < self.transactions.len(),
            p matches PendingOperation::Tx(pt) && pt.batch_id is Some
                && self.transactions[i].batch_id_spec() == pt.batch_id
                && self.transactions[i].succeeded_spec() != pt.outcome.is_success_spec(),
        ensures
            self.append_outcome(p, current_eth_block) is Err,
            self.after_append(p, current_eth_block) == self,
    {
    }

    /// In every reachable state, an included operation's index is its
    /// position in the block, and a rejected transaction has no index.
    pub proof fn lemma_block_index_is_position(self, i: int)
        requires
            self.inv(),
            0 <= i < self.transactions.len(),
        ensures
            self.transactions[i].succeeded_spec() ==> self.transactions[i].block_index_spec()
                == Some(i as u32),
            !self.transactions[i].succeeded_spec() ==> self.transactions[i].block_index_spec() is None,
    {
    }
}

/// Builds blocks one at a time: `open`, any number of `append`, `finalize`.
pub struct BlockAssembler {
    allow_empty_blocks: bool,
    last_finalized: BlockNumber,
    is_open: bool,
    next_priority_serial: u64,
    block_first_priority_serial: u64,
    transactions: Vec<ExecutedOperation>,
}

impl View for BlockAssembler {
    type V = AssemblerState;

    closed spec fn view(&self) -> AssemblerState {
        AssemblerState {
            allow_empty_blocks: self.allow_empty_blocks,
            last_finalized: self.last_finalized,
            is_open: self.is_open,
            next_priority_serial: self.next_priority_serial,
            block_first_priority_serial: self.block_first_priority_serial,
            transactions: self.transactions@,
        }
    }
}

impl BlockAssembler {
    pub open spec fn wf(&self) -> bool {
        self@.inv()
    }

    /// An assembler whose last finalized block is `genesis_block`, whose next
    /// priority operation has serial id `first_priority_serial`, and which
    /// finalizes empty blocks only if `allow_empty_blocks`.
    pub fn new(genesis_block: BlockNumber, first_priority_serial: u64, allow_empty_blocks: bool) -> (r:
        BlockAssembler)
        ensures
            r.wf(),
            r@ == (AssemblerState {
                allow_empty_blocks,
                last_finalized: genesis_block,
                is_open: false,
                next_priority_serial: first_priority_serial,
                block_first_priority_serial: first_priority_serial,
                transactions: Seq::empty(),
            }),
    {
        let r = BlockAssembler {
            allow_empty_blocks,
            last_finalized: genesis_block,
            is_open: false,
            next_priority_serial: first_priority_serial,
            block_first_priority_serial: first_priority_serial,
            transactions: Vec::new(),
        };
        assert(r@.transactions =~= Seq::empty());
        r
    }

    pub fn last_finalized(&self) -> (r: BlockNumber)
        ensures
            r == self@.last_finalized,
    {
        self.last_finalized
    }

    pub fn is_open(&self) -> (r: bool)
        ensures
            r == self@.is_open,
    {
        self.is_open
    }

    pub fn next_priority_serial(&self) -> (r: u64)
        ensures
            r == self@.next_priority_serial,
    {
        self.next_priority_serial
    }

    /// The operations appended to the open block so far.
    pub fn transactions(&self) -> (r: &Vec<ExecutedOperation>)
        ensures
            r@ == self@.transactions,
    {
        &self.transactions
    }

    /// Number of operations in the open block.
    pub fn len(&self) -> (r: usize)
        ensures
            r == self@.transactions.len(),
    {
        self.transactions.len()
    }

    /// Starts block `n`, which must follow the last finalized block directly.
    pub fn open(&mut self, n: BlockNumber) -> (r: Result<(), AssemblerError>)
        requires
            old(self).wf(),
        ensures
            final(self).wf(),
            r == old(self)@.open_outcome(n),
            final(self)@ == old(self)@.after_open(n),
    {
        if self.is_open {
            return Err(AssemblerError::Sequence(SequenceError::BlockAlreadyOpen));
        }
        let expected: u64 = self.last_finalized as u64 + 1;
        if n as u64 != expected {
            return Err(AssemblerError::Sequence(SequenceError::WrongBlockNumber { expected, found: n }));
        }
        self.is_open = true;
        self.block_first_priority_serial = self.next_priority_serial;
        self.transactions = Vec::new();
        assert(self@.transactions =~= Seq::empty());
        Ok(())
    }

    fn has_batch_conflict(&self, batch_id: Option<u64>, success: bool) -> (r: bool)
        ensures
            r == self@.batch_conflict(batch_id, success),
    {
        match batch_id {
            None => false,
            Some(b) => {
                let mut i: usize = 0;
                while i < self.transactions.len()
                    invariant
                        0 <= i <= self.transactions@.len(),
                        batch_id == Some(b),
                        forall|k: int|
                            0 <= k < i ==> !((#[trigger] self.transactions@[k]).batch_id_spec()
                                == batch_id && self.transactions@[k].succeeded_spec() != success),
                    decreases self.transactions@.len() - i,
                {
                    if self.transactions[i].batch_id() == batch_id
                        && self.transactions[i].succeeded() != success {
                        assert(self@.transactions[i as int].batch_id_spec() == batch_id
                            && self@.transactions[i as int].succeeded_spec() != success);
                        return true;
                    }
                    i = i + 1;
                }
                assert(self@.transactions == self.transactions@);
                false
            },
        }
    }

    /// Appends an executed operation to the open block, in execution order.
    /// An included operation gets the current length of the block as its
    /// index; a rejected transaction gets none. `current_eth_block` is the
    /// layer-1 height, against which a priority operation's deadline is held.
    pub fn append(&mut self, p: PendingOperation, current_eth_block: u64) -> (r: Result<
        Option<u32>,
        AssemblerError,
    >)
        requires
            old(self).wf(),
            old(self)@.transactions.len() < u32::MAX,
        ensures
            final(self).wf(),
            r == old(self)@.append_outcome(p, current_eth_block),
            final(self)@ == old(self)@.after_append(p, current_eth_block),
    {
        proof {
            self@.lemma_after_append_keeps_inv(p, current_eth_block);
        }
        let ghost p0 = p;
        if !self.is_open {
            return Err(AssemblerError::Sequence(SequenceError::BlockNotOpen));
        }
        let len = self.transactions.len();
        if len > 0 && p.created_at() <= self.transactions[len - 1].created_at() {
            return Err(AssemblerError::Sequence(SequenceError::NonIncreasingTimestamp));
        }
        let idx = len as u32;
        match p {
            PendingOperation::PriorityOp(pp) => {
                match pp.op.try_get_priority_op() {
                    None => {
                        return Err(AssemblerError::Validation(ValidationError::NotPriorityOperation));
                    },
                    Some(data) => {
                        if data != pp.priority_op.data {
                            return Err(AssemblerError::Validation(ValidationError::PayloadMismatch));
                        }
                    },
                }
                if let Err(e) = pp.priority_op.check_not_expired(current_eth_block) {
                    return Err(AssemblerError::Expired(e));
                }
                let serial = pp.priority_op.serial_id;
                if serial != self.next_priority_serial || serial == u64::MAX {
                    return Err(
                        AssemblerError::Sequence(
                            SequenceError::UnexpectedPrioritySerialId {
                                expected: self.next_priority_serial,
                                found: serial,
                            },
                        ),
                    );
                }
                self.next_priority_serial = serial + 1;
                self.transactions.push(
                    ExecutedOperation::PriorityOp(
                        ExecutedPriorityOp {
                            priority_op: pp.priority_op,
                            op: pp.op,
                            block_index: idx,
                            created_at: pp.created_at,
                        },
                    ),
                );
                assert(self@.transactions =~= old(self)@.transactions.push(old(self)@.executed_form(p0)));
                Ok(Some(idx))
            },
            PendingOperation::Tx(pt) => {
                let signed_tx = match pt.op.try_get_tx() {
                    None => {
                        return Err(AssemblerError::Validation(ValidationError::NotSignedTransaction));
                    },
                    Some(t) => t,
                };
                if let Err(e) = pt.op.validate() {
                    return Err(AssemblerError::Validation(e));
                }
                let success = pt.outcome.is_success();
                if self.has_batch_conflict(pt.batch_id, success) {
                    let b = match pt.batch_id {
                        Some(b) => b,
                        None => 0,
                    };
                    return Err(AssemblerError::BatchAtomicityViolation { batch_id: b });
                }
                let PendingTx { op, outcome, batch_id, created_at } = pt;
                let fail_reason = match outcome {
                    TxOutcome::Success => None,
                    TxOutcome::Rejected { fail_reason } => Some(fail_reason),
                };
                let block_index = if success {
                    Some(idx)
                } else {
                    None
                };
                self.transactions.push(
                    ExecutedOperation::Tx(
                        ExecutedTx {
                            signed_tx,
                            op,
                            success,
                            fail_reason,
                            block_index,
                            batch_id,
                            created_at,
                        },
                    ),
                );
                assert(self@.transactions =~= old(self)@.transactions.push(old(self)@.executed_form(p0)));
                Ok(block_index)
            },
        }
    }

    /// Freezes the open block into a `Block` and starts waiting for the next
    /// block number.
    pub fn finalize(&mut self, state_root: H256, fee_account: AccountId, metadata: BlockMetadata) -> (r:
        Result<Block, AssemblerError>)
        requires
            old(self).wf(),
        ensures
            final(self).wf(),
            old(self)@.finalize_outcome() is Ok <==> r is Ok,
            r matches Err(e) ==> old(self)@.finalize_outcome() == Err::<(), AssemblerError>(e),
            r matches Ok(b) ==> b@ == old(self)@.finalized_view(state_root, fee_account, metadata),
            final(self)@ == old(self)@.after_finalize(),
    {
        if !self.is_open {
            return Err(AssemblerError::Sequence(SequenceError::BlockNotOpen));
        }
        if self.transactions.len() == 0 && !self.allow_empty_blocks {
            return Err(AssemblerError::Sequence(SequenceError::EmptyBlock));
        }
        let mut txs: Vec<ExecutedOperation> = Vec::new();
        std::mem::swap(&mut txs, &mut self.transactions);
        let block_number = self.last_finalized + 1;
        let block = Block {
            block_number,
            new_state_root: state_root,
            fee_account,
            block_transactions: txs,
            priority_ops_start: self.block_first_priority_serial,
            priority_ops_end: self.next_priority_serial,
            block_chunks_size: metadata.block_chunks_size,
            commit_gas_limit: metadata.commit_gas_limit,
            verify_gas_limit: metadata.verify_gas_limit,
            block_commitment: metadata.block_commitment,
            timestamp: metadata.timestamp,
        };
        self.last_finalized = block_number;
        self.is_open = false;
        self.block_first_priority_serial = self.next_priority_serial;
        assert(self@.transactions =~= Seq::empty());
        Ok(block)
    }
}

} // verus!
