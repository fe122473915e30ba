//! Correlation of layer-1 events with the priority operations they spawn:
//! serial ids in layer-1 order, duplicate detection, and expiry.
use vstd::prelude::*;
use crate::operations::PriorityPayload;
use crate::primitives::H256;

verus! {

/// A confirmed layer-1 event that requests a priority operation.
#[derive(Clone, Copy, Debug, PartialEq, Eq, Structural)]
pub struct L1Event {
    pub eth_hash: H256,
    pub eth_block: u64,
    pub eth_block_index: u64,
    /// Layer-1 block after which the request expires.
    pub deadline_block: u64,
    pub payload: PriorityPayload,
}

/// A layer-1 request with the serial id the correlator gave it.
#[derive(Clone, Copy, Debug, PartialEq, Eq, Structural)]
pub struct PriorityOperation {
    pub serial_id: u64,
    pub data: PriorityPayload,
    pub deadline_block: u64,
    pub eth_hash: H256,
    pub eth_block: u64,
    pub eth_block_index: u64,
}

/// What identifies a priority operation: the layer-1 transaction hash and the
/// event's index in its layer-1 block.
#[derive(Clone, Copy, Debug, PartialEq, Eq, Structural)]
pub struct PriorityOpKey {
    pub eth_hash: H256,
    pub eth_block_index: u64,
}

/// The priority operation's deadline has passed; it goes to refund.
#[derive(Clone, Copy, Debug, PartialEq, Eq, Structural)]
pub struct ExpiredPriorityOperation {
    pub serial_id: u64,
    pub deadline_block: u64,
}

#[derive(Clone, Copy, Debug, PartialEq, Eq, Structural)]
pub enum CorrelatorError {
    /// The event was ingested before; nothing was assigned.
    DuplicatePriorityOperation,
    /// The event comes before, or at, the layer-1 position of the last one.
    OutOfOrderEvent,
    /// Every serial id has been given out.
    SerialIdsExhausted,
}

/// `(b1, i1)` comes strictly before `(b2, i2)` in layer-1 order.
pub open spec fn position_lt(b1: u64, i1: u64, b2: u64, i2: u64) -> bool {
    b1 < b2 || (b1 == b2 && i1 < i2)
}

impl L1Event {
    pub open spec fn key_spec(self) -> PriorityOpKey {
        PriorityOpKey { eth_hash: self.eth_hash, eth_block_index: self.eth_block_index }
    }
}

impl PriorityOperation {
    pub open spec fn key_spec(self) -> PriorityOpKey {
        PriorityOpKey { eth_hash: self.eth_hash, eth_block_index: self.eth_block_index }
    }

    pub open spec fn before(self, other: PriorityOperation) -> bool {
        position_lt(self.eth_block, self.eth_block_index, other.eth_block, other.eth_block_index)
    }

    /// The identity of a priority operation.
    pub fn key(&self) -> (r: PriorityOpKey)
        ensures
            r == self.key_spec(),
    {
        PriorityOpKey { eth_hash: self.eth_hash, eth_block_index: self.eth_block_index }
    }

    /// Whether the operation has expired once layer 1 is at `current_eth_block`.
    pub fn is_expired(&self, current_eth_block: u64) -> (r: bool)
        ensures
            r == (current_eth_block > self.deadline_block),
    {
        current_eth_block > self.deadline_block
    }

    /// Refuses an expired operation, which must be refunded, not executed.
    pub fn check_not_expired(&self, current_eth_block: u64) -> (r: Result<
        (),
        ExpiredPriorityOperation,
    >)
        ensures
            current_eth_block > self.deadline_block ==> r == Err::<(), ExpiredPriorityOperation>(
                ExpiredPriorityOperation {
                    serial_id: self.serial_id,
                    deadline_block: self.deadline_block,
                },
            ),
            current_eth_block <= self.deadline_block ==> r is Ok,
    {
        if self.is_expired(current_eth_block) {
            Err(ExpiredPriorityOperation { serial_id: self.serial_id, deadline_block: self.deadline_block })
        } else {
            Ok(())
        }
    }
}

/// The abstract state of a correlator: the first serial id it gives out and
/// every operation it has assigned, in order of assignment.
pub struct CorrelatorState {
    pub first_serial_id: u64,
    pub assigned: Seq<PriorityOperation>,
}

impl CorrelatorState {
    pub open spec fn next_serial_id(self) -> int {
        self.first_serial_id + self.assigned.len()
    }

    pub open spec fn has_key(self, key: PriorityOpKey) -> bool {
        exists|i: int| 0 <= i < self.assigned.len() && #[trigger] self.assigned[i].key_spec() == key
    }

    /// Serial ids are consecutive from the first one, layer-1 positions
    /// strictly increase, and no two operations share a key.
    pub open spec fn inv(self) -> bool {
        &&& self.next_serial_id() <= u64::MAX
        &&& forall|i: int|
            0 <= i < self.assigned.len() ==> #[trigger] self.assigned[i].serial_id
                == self.first_serial_id + i
        &&& forall|i: int, j: int|
            0 <= i < j < self.assigned.len() ==> #[trigger] self.assigned[i].before(
                #[trigger] self.assigned[j],
            )
        &&& forall|i: int, j: int|
            0 <= i < self.assigned.len() && 0 <= j < self.assigned.len() && i != j
                ==> #[trigger] self.assigned[i].key_spec() != #[trigger] self.assigned[j].key_spec()
    }

    /// What ingesting `e` returns.
    pub open spec fn outcome(self, e: L1Event) -> Result<PriorityOperation, CorrelatorError> {
        if self.has_key(e.key_spec()) {
            Err(CorrelatorError::DuplicatePriorityOperation)
        } else if self.next_serial_id() >= u64::MAX {
            Err(CorrelatorError::SerialIdsExhausted)
        } else if self.assigned.len() > 0 && !position_lt(
            self.assigned.last().eth_block,
            self.assigned.last().eth_block_index,
            e.eth_block,
            e.eth_block_index,
        ) {
            Err(CorrelatorError::OutOfOrderEvent)
        } else {
            Ok(
                PriorityOperation {
                    serial_id: self.next_serial_id() as u64,
                    data: e.payload,
                    deadline_block: e.deadline_block,
                    eth_hash: e.eth_hash,
                    eth_block: e.eth_block,
                    eth_block_index: e.eth_block_index,
                },
            )
        }
    }

    /// The state after ingesting `e`: the new operation is recorded, or
    /// nothing changes.
    pub open spec fn after(self, e: L1Event) -> CorrelatorState {
        match self.outcome(e) {
            Ok(op) => CorrelatorState {
                first_serial_id: self.first_serial_id,
                assigned: self.assigned.push(op),
            },
            Err(_) => self,
        }
    }

    /// The state after ingesting `events` in order.
    pub open spec fn after_all(self, events: Seq<L1Event>) -> CorrelatorState
        decreases events.len(),
    {
        if events.len() == 0 {
            self
        } else {
            self.after_all(events.drop_last()).after(events.last())
        }
    }

    pub proof fn lemma_after_keeps_inv(self, e: L1Event)
        requires
            self.inv(),
        ensures
            self.after(e).inv(),
            self.after(e).first_serial_id == self.first_serial_id,
    {
        let s = self.after(e);
        if let Ok(op) = self.outcome(e) {
            let n = self.assigned.len() as int;
            assert(s.assigned[n] == op);
            assert forall|i: int, j: int|
                0 <= i < j < s.assigned.len() implies #[trigger] s.assigned[i].before(
                #[trigger] s.assigned[j],
            ) by {
                if j == n && i < n - 1 {
                    assert(self.assigned[i].before(self.assigned[n - 1]));
                }
            }
            assert forall|i: int, j: int|
                0 <= i < s.assigned.len() && 0 <= j < s.assigned.len() && i != j
                    implies #[trigger] s.assigned[i].key_spec() != #[trigger] s.assigned[j].key_spec() by {
                if i == n {
                    assert(self.assigned[j].key_spec() != e.key_spec());
                } else if j == n {
                    assert(self.assigned[i].key_spec() != e.key_spec());
                }
            }
        }
    }

    /// Ingesting an event twice: whatever the first ingestion did, the second
    /// is refused and changes nothing, so no serial id is given out for it.
    pub proof fn lemma_replay_rejected(self, e: L1Event)
        requires
            self.inv(),
        ensures
            self.after(e).outcome(e) is Err,
            self.after(e).after(e) == self.after(e),
            self.after(e).after(e).next_serial_id() == self.after(e).next_serial_id(),
    {
        if let Ok(op) = self.outcome(e) {
            let s = self.after(e);
            let n = self.assigned.len() as int;
            assert(s.assigned[n].key_spec() == e.key_spec());
            assert(s.has_key(e.key_spec()));
        }
    }

    /// Whatever events arrive, and in whatever order, the operations assigned
    /// carry consecutive, strictly increasing serial ids, in strictly
    /// increasing layer-1 position.
    pub proof fn lemma_serial_ids_follow_l1_order(self, events: Seq<L1Event>, i: int, j: int)
        requires
            self.inv(),
            0 <= i < j < self.after_all(events).assigned.len(),
        ensures
            self.after_all(events).assigned[i].serial_id < self.after_all(events).assigned[j].serial_id,
            self.after_all(events).assigned[j].serial_id == self.first_serial_id + j,
            self.after_all(events).assigned[i].before(self.after_all(events).assigned[j]),
    {
        self.lemma_after_all_keeps_inv(events);
    }

    pub proof fn lemma_after_all_keeps_inv(self, events: Seq<L1Event>)
        requires
            self.inv(),
        ensures
            self.after_all(events).inv(),
            self.after_all(events).first_serial_id == self.first_serial_id,
        decreases events.len(),
    {
        if events.len() > 0 {
            self.lemma_after_all_keeps_inv(events.drop_last());
            self.after_all(events.drop_last()).lemma_after_keeps_inv(events.last());
        }
    }
}

/// Assigns serial ids to layer-1 events in the order they arrive, refusing
/// replays and events that arrive out of layer-1 order.
pub struct PriorityOpCorrelator {
    first_serial_id: u64,
    assigned: Vec<PriorityOperation>,
}

impl View for PriorityOpCorrelator {
    type V = CorrelatorState;

    closed spec fn view(&self) -> CorrelatorState {
        CorrelatorState { first_serial_id: self.first_serial_id, assigned: self.assigned@ }
    }
}

impl PriorityOpCorrelator {
    pub open spec fn wf(&self) -> bool {
        self@.inv()
    }

    /// A correlator whose first serial id is `first_serial_id`.
    pub fn new(first_serial_id: u64) -> (r: PriorityOpCorrelator)
        ensures
            r.wf(),
            r@.first_serial_id == first_serial_id,
            r@.assigned.len() == 0,
    {
        PriorityOpCorrelator { first_serial_id, assigned: Vec::new() }
    }

    /// The serial id the next accepted event will get.
    pub fn next_serial_id(&self) -> (r: u64)
        requires
            self.wf(),
        ensures
            r == self@.next_serial_id(),
    {
        self.first_serial_id + self.assigned.len() as u64
    }

    /// Every operation assigned so far, in order of assignment.
    pub fn assigned(&self) -> (r: &Vec<PriorityOperation>)
        ensures
            r@ == self@.assigned,
    {
        &self.assigned
    }

    /// Whether an event with this key was ingested.
    pub fn contains(&self, key: PriorityOpKey) -> (r: bool)
        ensures
            r == self@.has_key(key),
    {
        let mut i: usize = 0;
        while i < self.assigned.len()
            invariant
                0 <= i <= self.assigned@.len(),
                forall|k: int| 0 <= k < i ==> #[trigger] self.assigned@[k].key_spec() != key,
            decreases self.assigned@.len() - i,
        {
            if self.assigned[i].key() == key {
                assert(self@.assigned[i as int].key_spec() == key);
                return true;
            }
            i = i + 1;
        }
        assert(self@.assigned == self.assigned@);
        false
    }

    /// Ingests a confirmed layer-1 event: a fresh one gets the next serial id,
    /// a replayed one is refused as a duplicate and nothing changes.
    pub fn ingest(&mut self, event: L1Event) -> (r: Result<PriorityOperation, CorrelatorError>)
        requires
            old(self).wf(),
        ensures
            final(self).wf(),
            r == old(self)@.outcome(event),
            final(self)@ == old(self)@.after(event),
    {
        proof {
            self@.lemma_after_keeps_inv(event);
        }
        if self.contains(PriorityOpKey { eth_hash: event.eth_hash, eth_block_index: event.eth_block_index }) {
            return Err(CorrelatorError::DuplicatePriorityOperation);
        }
        let next = self.next_serial_id();
        if next == u64::MAX {
            return Err(CorrelatorError::SerialIdsExhausted);
        }
        let len = self.assigned.len();
        if len > 0 {
            let last = &self.assigned[len - 1];
            if !(last.eth_block < event.eth_block || (last.eth_block == event.eth_block
                && last.eth_block_index < event.eth_block_index)) {
                return Err(CorrelatorError::OutOfOrderEvent);
            }
        }
        let op = PriorityOperation {
            serial_id: next,
            data: event.payload,
            deadline_block: event.deadline_block,
            eth_hash: event.eth_hash,
            eth_block: event.eth_block,
            eth_block_index: event.eth_block_index,
        };
        self.assigned.push(op);
        proof {
            assert(self@.assigned =~= old(self)@.assigned.push(op));
        }
        Ok(op)
    }

    /// The assigned operations, from serial id `first_unprocessed` on, whose
    /// deadline has passed at layer-1 height `current_eth_block`: they are
    /// to be refunded, never executed.
    pub fn expired(&self, first_unprocessed: u64, current_eth_block: u64) -> (r: Vec<PriorityOperation>)
        ensures
            r@ == self@.assigned.filter(
                |o: PriorityOperation|
                    o.serial_id >= first_unprocessed && current_eth_block > o.deadline_block,
            ),
    {
        let ghost pred = |o: PriorityOperation|
            o.serial_id >= first_unprocessed && current_eth_block > o.deadline_block;
        let mut out: Vec<PriorityOperation> = Vec::new();
        let mut i: usize = 0;
        while i < self.assigned.len()
            invariant
                0 <= i <= self.assigned@.len(),
                pred == (|o: PriorityOperation|
                    o.serial_id >= first_unprocessed && current_eth_block > o.deadline_block),
                out@ == self.assigned@.take(i as int).filter(pred),
            decreases self.assigned@.len() - i,
        {
            let o = self.assigned[i];
            proof {
                let s = self.assigned@.take(i as int + 1);
                assert(s.drop_last() =~= self.assigned@.take(i as int));
                assert(s.last() == o);
                reveal(Seq::filter);
            }
            if o.serial_id >= first_unprocessed && o.is_expired(current_eth_block) {
                out.push(o);
            }
            i = i + 1;
        }
        assert(self.assigned@.take(i as int) =~= self@.assigned);
        out
    }
}

} // verus!
