//! The rows executed operations are stored as, and the conversions between
//! rows and operations. Numbers are stored as signed 64-bit columns, times
//! at microsecond precision, and a rejected transaction's index as null.
use vstd::prelude::*;
use crate::executed::{ExecutedOperation, ExecutedPriorityOp, ExecutedTx};
use crate::operations::{PriorityPayload, SignedTx, ZkSyncOp};
use crate::priority::PriorityOperation;
use crate::primitives::{BlockNumber, H256};

verus! {

#[derive(Clone, Copy, Debug, PartialEq, Eq, Structural)]
pub struct StoredPriorityOp {
    pub block_number: i64,
    pub block_index: i64,
    pub serial_id: i64,
    pub data: PriorityPayload,
    pub operation: ZkSyncOp,
    pub deadline_block: i64,
    pub eth_hash: H256,
    pub eth_block: i64,
    pub eth_block_index: i64,
    pub created_at: i64,
}

#[derive(Clone, Debug)]
pub struct StoredExecutedTx {
    pub block_number: i64,
    /// Null for a rejected transaction.
    pub block_index: Option<i64>,
    pub tx: SignedTx,
    pub operation: ZkSyncOp,
    pub success: bool,
    pub fail_reason: Option<String>,
    pub batch_id: Option<i64>,
    pub created_at: i64,
}

#[derive(Clone, Debug)]
pub enum StoredOperation {
    PriorityOp(StoredPriorityOp),
    Tx(StoredExecutedTx),
}

#[derive(Clone, Copy, Debug, PartialEq, Eq, Structural)]
pub enum StorageError {
    /// A number does not fit the column, or a column holds a number that
    /// does not fit the field.
    ValueOutOfRange,
    /// A stored transaction's outcome columns disagree with one another.
    InconsistentOutcome,
}

pub open spec fn fits_i64(x: u64) -> bool {
    x <= i64::MAX
}

pub open spec fn fits_u32(x: i64) -> bool {
    0 <= x <= u32::MAX
}

impl StoredOperation {
    pub open spec fn created_at_spec(self) -> i64 {
        match self {
            StoredOperation::PriorityOp(r) => r.created_at,
            StoredOperation::Tx(r) => r.created_at,
        }
    }
}

/// The row that operation `op` of block `n` is stored as.
pub open spec fn stored_form(n: BlockNumber, op: ExecutedOperation) -> Result<
    StoredOperation,
    StorageError,
> {
    match op {
        ExecutedOperation::PriorityOp(p) => if !fits_i64(p.priority_op.serial_id) || !fits_i64(
            p.priority_op.deadline_block,
        ) || !fits_i64(p.priority_op.eth_block) || !fits_i64(p.priority_op.eth_block_index) {
            Err(StorageError::ValueOutOfRange)
        } else {
            Ok(
                StoredOperation::PriorityOp(
                    StoredPriorityOp {
                        block_number: n as i64,
                        block_index: p.block_index as i64,
                        serial_id: p.priority_op.serial_id as i64,
                        data: p.priority_op.data,
                        operation: p.op,
                        deadline_block: p.priority_op.deadline_block as i64,
                        eth_hash: p.priority_op.eth_hash,
                        eth_block: p.priority_op.eth_block as i64,
                        eth_block_index: p.priority_op.eth_block_index as i64,
                        created_at: p.created_at,
                    },
                ),
            )
        },
        ExecutedOperation::Tx(t) => if t.batch_id matches Some(b) && !fits_i64(b) {
            Err(StorageError::ValueOutOfRange)
        } else {
            Ok(
                StoredOperation::Tx(
                    StoredExecutedTx {
                        block_number: n as i64,
                        block_index: match t.block_index {
                            Some(i) => Some(i as i64),
                            None => None,
                        },
                        tx: t.signed_tx,
                        operation: t.op,
                        success: t.success,
                        fail_reason: t.fail_reason,
                        batch_id: match t.batch_id {
                            Some(b) => Some(b as i64),
                            None => None,
                        },
                        created_at: t.created_at,
                    },
                ),
            )
        },
    }
}

/// The block number and operation that a row holds.
pub open spec fn restored(row: StoredOperation) -> Result<
    (BlockNumber, ExecutedOperation),
    StorageError,
> {
    match row {
        StoredOperation::PriorityOp(r) => if !fits_u32(r.block_number) || !fits_u32(r.block_index)
            || r.serial_id < 0 || r.deadline_block < 0 || r.eth_block < 0 || r.eth_block_index < 0 {
            Err(StorageError::ValueOutOfRange)
        } else {
            Ok(
                (
                    r.block_number as u32,
                    ExecutedOperation::PriorityOp(
                        ExecutedPriorityOp {
                            priority_op: PriorityOperation {
                                serial_id: r.serial_id as u64,
                                data: r.data,
                                deadline_block: r.deadline_block as u64,
                                eth_hash: r.eth_hash,
                                eth_block: r.eth_block as u64,
                                eth_block_index: r.eth_block_index as u64,
                            },
                            op: r.operation,
                            block_index: r.block_index as u32,
                            created_at: r.created_at,
                        },
                    ),
                ),
            )
        },
        StoredOperation::Tx(r) => if !fits_u32(r.block_number) || (r.block_index matches Some(i)
            && !fits_u32(i)) || (r.batch_id matches Some(b) && b < 0) {
            Err(StorageError::ValueOutOfRange)
        } else if r.block_index.is_some() != r.success || r.fail_reason.is_some() == r.success
            || r.operation.signed_tx_spec() != Some(r.tx) {
            Err(StorageError::InconsistentOutcome)
        } else {
            Ok(
                (
                    r.block_number as u32,
                    ExecutedOperation::Tx(
                        ExecutedTx {
                            signed_tx: r.tx,
                            op: r.operation,
                            success: r.success,
                            fail_reason: r.fail_reason,
                            block_index: match r.block_index {
                                Some(i) => Some(i as u32),
                                None => None,
                            },
                            batch_id: match r.batch_id {
                                Some(b) => Some(b as u64),
                                None => None,
                            },
                            created_at: r.created_at,
                        },
                    ),
                ),
            )
        },
    }
}

const I64_MAX_AS_U64: u64 = 0x7fff_ffff_ffff_ffff;

/// Turns operation `op` of block `n` into its row.
pub fn to_stored(n: BlockNumber, op: ExecutedOperation) -> (r: Result<StoredOperation, StorageError>)
    ensures
        r == stored_form(n, op),
{
    match op {
        ExecutedOperation::PriorityOp(p) => {
            let po = p.priority_op;
            if po.serial_id > I64_MAX_AS_U64 || po.deadline_block > I64_MAX_AS_U64 || po.eth_block
                > I64_MAX_AS_U64 || po.eth_block_index > I64_MAX_AS_U64 {
                return Err(StorageError::ValueOutOfRange);
            }
            Ok(
                StoredOperation::PriorityOp(
                    StoredPriorityOp {
                        block_number: n as i64,
                        block_index: p.block_index as i64,
                        serial_id: po.serial_id as i64,
                        data: po.data,
                        operation: p.op,
                        deadline_block: po.deadline_block as i64,
                        eth_hash: po.eth_hash,
                        eth_block: po.eth_block as i64,
                        eth_block_index: po.eth_block_index as i64,
                        created_at: p.created_at,
                    },
                ),
            )
        },
        ExecutedOperation::Tx(t) => {
            let batch_id = match t.batch_id {
                Some(b) => {
                    if b > I64_MAX_AS_U64 {
                        return Err(StorageError::ValueOutOfRange);
                    }
                    Some(b as i64)
                },
                None => None,
            };
            let block_index = match t.block_index {
                Some(i) => Some(i as i64),
                None => None,
            };
            let ExecutedTx { signed_tx, op, success, fail_reason, created_at, .. } = t;
            Ok(
                StoredOperation::Tx(
                    StoredExecutedTx {
                        block_number: n as i64,
                        block_index,
                        tx: signed_tx,
                        operation: op,
                        success,
                        fail_reason,
                        batch_id,
                        created_at,
                    },
                ),
            )
        },
    }
}

const U32_MAX_AS_I64: i64 = 0xffff_ffff;

/// Reads a row back into the block number and the operation it holds,
/// refusing values out of range and outcome columns that disagree.
pub fn from_stored(row: StoredOperation) -> (r: Result<(BlockNumber, ExecutedOperation), StorageError>)
    ensures
        r == restored(row),
{
    match row {
        StoredOperation::PriorityOp(s) => {
            if s.block_number < 0 || s.block_number > U32_MAX_AS_I64 || s.block_index < 0
                || s.block_index > U32_MAX_AS_I64 || s.serial_id < 0 || s.deadline_block < 0
                || s.eth_block < 0 || s.eth_block_index < 0 {
                return Err(StorageError::ValueOutOfRange);
            }
            Ok(
                (
                    s.block_number as u32,
                    ExecutedOperation::PriorityOp(
                        ExecutedPriorityOp {
                            priority_op: PriorityOperation {
                                serial_id: s.serial_id as u64,
                                data: s.data,
                                deadline_block: s.deadline_block as u64,
                                eth_hash: s.eth_hash,
                                eth_block: s.eth_block as u64,
                                eth_block_index: s.eth_block_index as u64,
                            },
                            op: s.operation,
                            block_index: s.block_index as u32,
                            created_at: s.created_at,
                        },
                    ),
                ),
            )
        },
        StoredOperation::Tx(s) => {
            if s.block_number < 0 || s.block_number > U32_MAX_AS_I64 {
                return Err(StorageError::ValueOutOfRange);
            }
            let block_index = match s.block_index {
                Some(i) => {
                    if i < 0 || i > U32_MAX_AS_I64 {
                        return Err(StorageError::ValueOutOfRange);
                    }
                    Some(i as u32)
                },
                None => None,
            };
            let batch_id = match s.batch_id {
                Some(b) => {
                    if b < 0 {
                        return Err(StorageError::ValueOutOfRange);
                    }
                    Some(b as u64)
                },
                None => None,
            };
            if block_index.is_some() != s.success || s.fail_reason.is_some() == s.success {
                return Err(StorageError::InconsistentOutcome);
            }
            match s.operation.try_get_tx() {
                Some(t) => {
                    if t != s.tx {
                        return Err(StorageError::InconsistentOutcome);
                    }
                },
                None => {
                    return Err(StorageError::InconsistentOutcome);
                },
            }
            let StoredExecutedTx { block_number, tx, operation, success, fail_reason, created_at, .. } = s;
            Ok(
                (
                    block_number as u32,
                    ExecutedOperation::Tx(
                        ExecutedTx {
                            signed_tx: tx,
                            op: operation,
                            success,
                            fail_reason,
                            block_index,
                            batch_id,
                            created_at,
                        },
                    ),
                ),
            )
        },
    }
}

/// Storing a well-formed operation and reading it back gives the same block
/// number and the same operation.
pub proof fn lemma_round_trip(n: BlockNumber, op: ExecutedOperation)
    requires
        op.wf(),
    ensures
        stored_form(n, op) matches Ok(row) ==> restored(row) == Ok::<
            (BlockNumber, ExecutedOperation),
            StorageError,
        >((n, op)),
{
}

/// A rejected transaction is stored with a null index and read back with
/// none: never zero, never a placeholder.
pub proof fn lemma_rejected_tx_index_stays_absent(n: BlockNumber, tx: ExecutedTx)
    requires
        tx.wf(),
        !tx.success,
    ensures
        tx.block_index is None,
        stored_form(n, ExecutedOperation::Tx(tx)) matches Ok(row) ==> (row matches StoredOperation::Tx(
            r,
        ) && r.block_index is None),
        stored_form(n, ExecutedOperation::Tx(tx)) matches Ok(row) ==> restored(row) == Ok::<
            (BlockNumber, ExecutedOperation),
            StorageError,
        >((n, ExecutedOperation::Tx(tx))),
        stored_form(n, ExecutedOperation::Tx(tx)) is Ok <==> (tx.batch_id matches Some(b)
            ==> fits_i64(b)),
{
}

/// Operations whose times strictly increase, as those of a block do, keep
/// that strict order in their rows and after being read back: no two
/// collapse to one time, none swap.
pub proof fn lemma_round_trip_keeps_time_order(
    n: BlockNumber,
    ops: Seq<ExecutedOperation>,
    rows: Seq<StoredOperation>,
)
    requires
        rows.len() == ops.len(),
        forall|i: int| 0 <= i < ops.len() ==> (#[trigger] ops[i]).wf(),
        forall|i: int| 0 <= i < ops.len() ==> stored_form(n, #[trigger] ops[i]) == Ok::<
            StoredOperation,
            StorageError,
        >(rows[i]),
        forall|i: int, j: int|
            0 <= i < j < ops.len() ==> (#[trigger] ops[i]).created_at_spec() < (
            #[trigger] ops[j]).created_at_spec(),
    ensures
        forall|i: int, j: int|
            0 <= i < j < rows.len() ==> (#[trigger] rows[i]).created_at_spec() < (
            #[trigger] rows[j]).created_at_spec(),
        forall|i: int|
            0 <= i < rows.len() ==> #[trigger] restored(rows[i]) == Ok::<
                (BlockNumber, ExecutedOperation),
                StorageError,
            >((n, ops[i])),
{
    assert forall|i: int| 0 <= i < rows.len() implies #[trigger] rows[i].created_at_spec()
        == ops[i].created_at_spec() by {
        assert(stored_form(n, ops[i]) == Ok::<StoredOperation, StorageError>(rows[i]));
    }
    assert forall|i: int| 0 <= i < rows.len() implies #[trigger] restored(rows[i]) == Ok::<
        (BlockNumber, ExecutedOperation),
        StorageError,
    >((n, ops[i])) by {
        assert(stored_form(n, ops[i]) == Ok::<StoredOperation, StorageError>(rows[i]));
        lemma_round_trip(n, ops[i]);
    }
}

} // verus!
