//! The block producer: one cut turns the whole pending buffer into the next
//! block.

use vstd::prelude::*;
use crate::history::{LedgerEvent, ledger_state, next};
use crate::model::{contents, holds, lemma_all_operations_push, numbered};
use crate::types::{Block, BlockId, Blocks, Transaction, Transactions};

verus! {

/// Cuts a block. The pending operations, all of them and in their order,
/// become the operations of a new block, which is appended under the next
/// number; the pending buffer is left empty and the blocks before are left as
/// they were. Returns the number of the new block, which holds every
/// operation that was pending. An empty buffer gives an empty block.
pub fn cut(blocks: &mut Blocks, pending: &mut Transactions) -> (id: BlockId)
    ensures
        id == old(blocks)@.len(),
        final(blocks)@.len() == old(blocks)@.len() + 1,
        final(blocks)@.drop_last() == old(blocks)@,
        final(blocks)@.last().id == id,
        final(blocks)@.last().transactions@ == old(pending)@,
        final(pending)@ == Seq::<Transaction>::empty(),
        forall|k: int|
            0 <= k < old(pending)@.len() ==> holds(
                contents(final(blocks)@),
                id,
                (#[trigger] old(pending)@[k]).id,
            ),
        numbered(old(blocks)@) ==> numbered(final(blocks)@),
        ledger_state(final(blocks)@, final(pending)@) == next(
            ledger_state(old(blocks)@, old(pending)@),
            LedgerEvent::Cut,
        ),
{
    let mut operations: Transactions = Vec::new();
    core::mem::swap(&mut operations, pending);
    let id = blocks.len() as BlockId;
    let block = Block { id, transactions: operations };
    proof {
        lemma_all_operations_push(blocks@, block);
    }
    blocks.push(block);
    assert(blocks@.drop_last() =~= old(blocks)@);
    id
}

} // verus!
