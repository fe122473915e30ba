//! The outcome envelope: an operation together with how its execution went,
//! where it stands in its block, its batch, and when it was executed.
use vstd::prelude::*;
use crate::operations::{SignedTx, ZkSyncOp};
use crate::hashing::sha256_of;
use crate::priority::{PriorityOpKey, PriorityOperation};
use crate::primitives::Timestamp;

verus! {

/// A priority operation included in a block. Priority operations are never
/// rejected at inclusion, so the index is always present.
#[derive(Clone, Copy, Debug, PartialEq, Eq, Structural)]
pub struct ExecutedPriorityOp {
    pub priority_op: PriorityOperation,
    pub op: ZkSyncOp,
    pub block_index: u32,
    pub created_at: Timestamp,
}

/// A signed transaction after execution: included with an index, or rejected
/// with a reason and no index.
#[derive(Clone, Debug)]
pub struct ExecutedTx {
    pub signed_tx: SignedTx,
    pub op: ZkSyncOp,
    pub success: bool,
    pub fail_reason: Option<String>,
    pub block_index: Option<u32>,
    pub batch_id: Option<u64>,
    pub created_at: Timestamp,
}

#[derive(Clone, Debug)]
pub enum ExecutedOperation {
    PriorityOp(ExecutedPriorityOp),
    Tx(ExecutedTx),
}

/// What identifies an executed operation: the hash of a signed transaction,
/// or the layer-1 key of a priority operation.
#[derive(Clone, Debug)]
pub enum OperationIdentity {
    TxHash(Vec<u8>),
    Priority(PriorityOpKey),
}

/// How the execution of a signed transaction went. A rejection always
/// carries its reason.
#[derive(Clone, Debug)]
pub enum TxOutcome {
    Success,
    Rejected { fail_reason: String },
}

/// A signed transaction that has been executed and waits for its place in
/// the block.
#[derive(Clone, Debug)]
pub struct PendingTx {
    pub op: ZkSyncOp,
    pub outcome: TxOutcome,
    pub batch_id: Option<u64>,
    pub created_at: Timestamp,
}

/// A priority operation that has been executed and waits for its place in
/// the block.
#[derive(Clone, Copy, Debug, PartialEq, Eq, Structural)]
pub struct PendingPriorityOp {
    pub priority_op: PriorityOperation,
    pub op: ZkSyncOp,
    pub created_at: Timestamp,
}

#[derive(Clone, Debug)]
pub enum PendingOperation {
    PriorityOp(PendingPriorityOp),
    Tx(PendingTx),
}

/// Members of one batch disagree on success.
#[derive(Clone, Copy, Debug, PartialEq, Eq, Structural)]
pub struct BatchAtomicityViolation {
    pub batch_id: u64,
}

impl ExecutedTx {
    /// The index is present exactly on success, a reason exactly on
    /// rejection, and the signed form is the operation's own.
    pub open spec fn wf(self) -> bool {
        &&& self.success == self.block_index.is_some()
        &&& self.success == self.fail_reason.is_none()
        &&& self.op.signed_tx_spec() == Some(self.signed_tx)
    }
}

impl TxOutcome {
    pub open spec fn is_success_spec(self) -> bool {
        self is Success
    }

    pub fn is_success(&self) -> (r: bool)
        ensures
            r == self.is_success_spec(),
    {
        match self {
            TxOutcome::Success => true,
            TxOutcome::Rejected { .. } => false,
        }
    }
}

impl ExecutedOperation {
    pub open spec fn created_at_spec(self) -> Timestamp {
        match self {
            ExecutedOperation::PriorityOp(op) => op.created_at,
            ExecutedOperation::Tx(tx) => tx.created_at,
        }
    }

    pub open spec fn block_index_spec(self) -> Option<u32> {
        match self {
            ExecutedOperation::PriorityOp(op) => Some(op.block_index),
            ExecutedOperation::Tx(tx) => tx.block_index,
        }
    }

    /// Whether the operation was included: priority operations always are.
    pub open spec fn succeeded_spec(self) -> bool {
        match self {
            ExecutedOperation::PriorityOp(_) => true,
            ExecutedOperation::Tx(tx) => tx.success,
        }
    }

    pub open spec fn batch_id_spec(self) -> Option<u64> {
        match self {
            ExecutedOperation::PriorityOp(_) => None,
            ExecutedOperation::Tx(tx) => tx.batch_id,
        }
    }

    pub open spec fn wf(self) -> bool {
        match self {
            ExecutedOperation::PriorityOp(op) => op.op.priority_payload_spec() == Some(
                op.priority_op.data,
            ),
            ExecutedOperation::Tx(tx) => tx.wf(),
        }
    }

    pub fn created_at(&self) -> (r: Timestamp)
        ensures
            r == self.created_at_spec(),
    {
        match self {
            ExecutedOperation::PriorityOp(op) => op.created_at,
            ExecutedOperation::Tx(tx) => tx.created_at,
        }
    }

    /// The operation's identity: the content hash of its signed payload, or
    /// its layer-1 key.
    pub fn identity(&self) -> (r: OperationIdentity)
        ensures
            self matches ExecutedOperation::Tx(tx) ==> r matches OperationIdentity::TxHash(h) && h@
                == sha256_of(tx.signed_tx.payload_spec()),
            self matches ExecutedOperation::PriorityOp(p) ==> r == OperationIdentity::Priority(
                p.priority_op.key_spec(),
            ),
    {
        match self {
            ExecutedOperation::PriorityOp(op) => OperationIdentity::Priority(op.priority_op.key()),
            ExecutedOperation::Tx(tx) => OperationIdentity::TxHash(tx.signed_tx.hash()),
        }
    }

    pub fn block_index(&self) -> (r: Option<u32>)
        ensures
            r == self.block_index_spec(),
    {
        match self {
            ExecutedOperation::PriorityOp(op) => Some(op.block_index),
            ExecutedOperation::Tx(tx) => tx.block_index,
        }
    }

    pub fn succeeded(&self) -> (r: bool)
        ensures
            r == self.succeeded_spec(),
    {
        match self {
            ExecutedOperation::PriorityOp(_) => true,
            ExecutedOperation::Tx(tx) => tx.success,
        }
    }

    pub fn batch_id(&self) -> (r: Option<u64>)
        ensures
            r == self.batch_id_spec(),
    {
        match self {
            ExecutedOperation::PriorityOp(_) => None,
            ExecutedOperation::Tx(tx) => tx.batch_id,
        }
    }
}

impl PendingOperation {
    pub open spec fn created_at_spec(self) -> Timestamp {
        match self {
            PendingOperation::PriorityOp(op) => op.created_at,
            PendingOperation::Tx(tx) => tx.created_at,
        }
    }

    pub fn created_at(&self) -> (r: Timestamp)
        ensures
            r == self.created_at_spec(),
    {
        match self {
            PendingOperation::PriorityOp(op) => op.created_at,
            PendingOperation::Tx(tx) => tx.created_at,
        }
    }
}

/// Members that share a batch id all succeeded or all failed.
pub open spec fn batch_atomic(members: Seq<PendingTx>) -> bool {
    forall|i: int, j: int|
        0 <= i < members.len() && 0 <= j < members.len() && (#[trigger] members[i]).batch_id
            is Some && members[i].batch_id == (#[trigger] members[j]).batch_id
            ==> members[i].outcome.is_success_spec() == members[j].outcome.is_success_spec()
}

/// Checks that a set of executed transactions respects batch atomicity,
/// naming a batch whose members disagree.
pub fn check_batch_atomicity(members: &Vec<PendingTx>) -> (r: Result<(), BatchAtomicityViolation>)
    ensures
        r is Ok <==> batch_atomic(members@),
        r matches Err(v) ==> exists|i: int, j: int|
            0 <= i < members@.len() && 0 <= j < members@.len() && members@[i].batch_id == Some(
                v.batch_id,
            ) && members@[j].batch_id == Some(v.batch_id)
                && members@[i].outcome.is_success_spec()
                != members@[j].outcome.is_success_spec(),
{
    let n = members.len();
    let mut i: usize = 0;
    while i < n
        invariant
            n == members@.len(),
            0 <= i <= n,
            forall|a: int, b: int|
                0 <= a < i && 0 <= b < n && (#[trigger] members@[a]).batch_id is Some
                    && members@[a].batch_id == (#[trigger] members@[b]).batch_id
                    ==> members@[a].outcome.is_success_spec()
                    == members@[b].outcome.is_success_spec(),
        decreases n - i,
    {
        if let Some(b) = members[i].batch_id {
            let s = members[i].outcome.is_success();
            let mut j: usize = 0;
            while j < n
                invariant
                    n == members@.len(),
                    0 <= i < n,
                    0 <= j <= n,
                    members@[i as int].batch_id == Some(b),
                    s == members@[i as int].outcome.is_success_spec(),
                    forall|c: int|
                        0 <= c < j && (#[trigger] members@[c]).batch_id == Some(b)
                            ==> members@[c].outcome.is_success_spec() == s,
                decreases n - j,
            {
                if members[j].batch_id == Some(b) && members[j].outcome.is_success() != s {
                    assert(!batch_atomic(members@)) by {
                        assert(members@[i as int].batch_id == members@[j as int].batch_id);
                    }
                    return Err(BatchAtomicityViolation { batch_id: b });
                }
                j = j + 1;
            }
        }
        i = i + 1;
    }
    Ok(())
}

} // verus!
