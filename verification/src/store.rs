//! The ledger store: the confirmed blocks and the pending buffer, read
//! together, and the one way an operation enters.

use vstd::prelude::*;
use crate::model::{
    all_operations, carries, contents, holds, ledger_operations, lemma_all_operations_prefix,
    lemma_all_operations_push, lemma_mentions_concat, lemma_signed_sum_bound,
    lemma_signed_sum_concat, lemma_unmentioned_sum_zero, mentions, signed_sum,
};
use crate::traits::{BlockInfo, TransactionInfo};
use crate::types::{AccountId, Balance, BlockId, Blocks, Transaction, TransactionId, Transactions};

verus! {

/// The number of operations the ledger holds, confirmed and pending
/// together, or `None` when that number does not fit a `usize`. The readings
/// below ask that it fits.
pub fn operation_count(blocks: &Blocks, pending: &Transactions) -> (count: Option<usize>)
    ensures
        match count {
            Some(n) => n == ledger_operations(blocks@, pending@).len(),
            None => ledger_operations(blocks@, pending@).len() > usize::MAX,
        },
{
    let mut count: usize = pending.len();
    let mut i: usize = 0;
    while i < blocks.len()
        invariant
            i <= blocks.len(),
            count == all_operations(blocks@.take(i as int)).len() + pending@.len(),
        decreases blocks.len() - i,
    {
        proof {
            assert(blocks@.take(i + 1) =~= blocks@.take(i as int).push(blocks@[i as int]));
            lemma_all_operations_push(blocks@.take(i as int), blocks@[i as int]);
            lemma_all_operations_prefix(blocks@, i + 1);
        }
        match count.checked_add(blocks[i].transactions.len()) {
            Some(more) => {
                count = more;
            },
            None => {
                return None;
            },
        }
        i += 1;
    }
    assert(blocks@.take(i as int) =~= blocks@);
    Some(count)
}

/// The balance of `account` over confirmed and pending operations together:
/// `None` exactly when neither side names the account, and otherwise the
/// signed sum over both.
pub fn balance(blocks: &Blocks, pending: &Transactions, account: AccountId) -> (result: Option<
    Balance,
>)
    requires
        ledger_operations(blocks@, pending@).len() <= usize::MAX,
    ensures
        result.is_none() <==> !mentions(ledger_operations(blocks@, pending@), account),
        result matches Some(sum) ==> sum == signed_sum(
            ledger_operations(blocks@, pending@),
            account,
        ),
{
    let pending_total = pending.calculate_total(account);
    let blocks_total = blocks.calculate_total(account);
    proof {
        let confirmed = all_operations(blocks@);
        lemma_mentions_concat(confirmed, pending@, account);
        lemma_signed_sum_concat(confirmed, pending@, account);
        lemma_signed_sum_bound(confirmed + pending@, account);
        if !mentions(confirmed, account) {
            lemma_unmentioned_sum_zero(confirmed, account);
        }
        if !mentions(pending@, account) {
            lemma_unmentioned_sum_zero(pending@, account);
        }
    }
    match (pending_total, blocks_total) {
        (Some(waiting), Some(settled)) => Some(waiting + settled),
        (Some(waiting), None) => Some(waiting),
        (None, Some(settled)) => Some(settled),
        (None, None) => None,
    }
}

/// Whether `account` is named by any confirmed or pending operation.
pub fn account_exists(blocks: &Blocks, pending: &Transactions, account: AccountId) -> (found: bool)
    ensures
        found == mentions(ledger_operations(blocks@, pending@), account),
{
    proof {
        lemma_mentions_concat(all_operations(blocks@), pending@, account);
    }
    blocks.contains_account(account) || pending.contains_account(account)
}

/// Whether the block at position `block_id` exists and holds the operation
/// `operation_id`. A position past the last block is answered with `false`.
pub fn block_contains(blocks: &Blocks, block_id: BlockId, operation_id: TransactionId) -> (found:
    bool)
    ensures
        found == holds(contents(blocks@), block_id, operation_id),
        block_id >= blocks@.len() ==> !found,
        block_id < blocks@.len() ==> found == carries(
            blocks@[block_id as int].transactions@,
            operation_id,
        ),
{
    blocks.contains_transaction(block_id, operation_id)
}

/// Appends `operation` to the pending buffer. Nothing is checked here and
/// nothing is refused.
pub fn submit(pending: &mut Transactions, operation: Transaction)
    ensures
        final(pending)@ == old(pending)@.push(operation),
{
    pending.push(operation);
}

} // verus!
