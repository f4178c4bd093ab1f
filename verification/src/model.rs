//! The mathematical model of the ledger: what a sequence of operations means
//! for an account, and the facts about it that the proofs rest on.

use vstd::prelude::*;
use crate::types::{AccountId, Block, BlockId, Transaction, TransactionId};

verus! {

/// Whether `op` names `account` as its recipient or its sender.
pub open spec fn involves(op: Transaction, account: AccountId) -> bool {
    op.to == account || op.from == account
}

/// Whether some operation of `ops` names `account`.
pub open spec fn mentions(ops: Seq<Transaction>, account: AccountId) -> bool {
    exists|i: int| 0 <= i < ops.len() && involves(#[trigger] ops[i], account)
}

/// Whether some operation of `ops` has the identifier `id`.
pub open spec fn carries(ops: Seq<Transaction>, id: TransactionId) -> bool {
    exists|i: int| 0 <= i < ops.len() && (#[trigger] ops[i]).id == id
}

/// Whether the group at position `block` exists and holds an operation with
/// the identifier `id`.
pub open spec fn holds(groups: Seq<Seq<Transaction>>, block: BlockId, id: TransactionId) -> bool {
    block < groups.len() && carries(groups[block as int], id)
}

/// What `op` adds to the balance of `account`: the amount if the account
/// receives it, the negated amount if the account only sends it, and nothing
/// otherwise. An operation from an account to itself counts as received.
pub open spec fn contribution(op: Transaction, account: AccountId) -> int {
    if op.to == account {
        op.amount as int
    } else if op.from == account {
        -(op.amount as int)
    } else {
        0
    }
}

/// The sum of the contributions of `ops` to `account`.
pub open spec fn signed_sum(ops: Seq<Transaction>, account: AccountId) -> int
    decreases ops.len(),
{
    if ops.len() == 0 {
        0
    } else {
        signed_sum(ops.drop_last(), account) + contribution(ops.last(), account)
    }
}

/// What each block holds, block by block.
pub open spec fn contents(blocks: Seq<Block>) -> Seq<Seq<Transaction>> {
    blocks.map_values(|block: Block| block.transactions@)
}

/// The operations of all `groups`, group after group.
pub open spec fn joined(groups: Seq<Seq<Transaction>>) -> Seq<Transaction>
    decreases groups.len(),
{
    if groups.len() == 0 {
        Seq::empty()
    } else {
        joined(groups.drop_last()) + groups.last()
    }
}

/// The operations of all `blocks`, block after block.
pub open spec fn all_operations(blocks: Seq<Block>) -> Seq<Transaction> {
    joined(contents(blocks))
}

/// Everything the ledger holds: the confirmed operations in block order,
/// then the pending ones.
pub open spec fn ledger_operations(blocks: Seq<Block>, pending: Seq<Transaction>) -> Seq<
    Transaction,
> {
    all_operations(blocks) + pending
}

/// Whether every block's number is its position in the sequence.
pub open spec fn numbered(blocks: Seq<Block>) -> bool {
    forall|i: int| 0 <= i < blocks.len() ==> (#[trigger] blocks[i]).id == i
}

/// Taking one more operation adds its contribution to the sum.
pub proof fn lemma_signed_sum_push(ops: Seq<Transaction>, op: Transaction, account: AccountId)
    ensures
        signed_sum(ops.push(op), account) == signed_sum(ops, account) + contribution(op, account),
{
    assert(ops.push(op).drop_last() =~= ops);
    assert(ops.push(op).last() == op);
}

/// The sum over a concatenation is the sum of the sums.
pub proof fn lemma_signed_sum_concat(a: Seq<Transaction>, b: Seq<Transaction>, account: AccountId)
    ensures
        signed_sum(a + b, account) == signed_sum(a, account) + signed_sum(b, account),
    decreases b.len(),
{
    if b.len() == 0 {
        assert(a + b =~= a);
    } else {
        assert((a + b).drop_last() =~= a + b.drop_last());
        assert((a + b).last() == b.last());
        lemma_signed_sum_concat(a, b.drop_last(), account);
    }
}

/// A concatenation names an account exactly when one of its parts does.
pub proof fn lemma_mentions_concat(a: Seq<Transaction>, b: Seq<Transaction>, account: AccountId)
    ensures
        mentions(a + b, account) == (mentions(a, account) || mentions(b, account)),
{
    let ab = a + b;
    if mentions(a, account) {
        let i = choose|i: int| 0 <= i < a.len() && involves(#[trigger] a[i], account);
        assert(ab[i] == a[i]);
    }
    if mentions(b, account) {
        let j = choose|j: int| 0 <= j < b.len() && involves(#[trigger] b[j], account);
        assert(ab[a.len() + j] == b[j]);
    }
    if mentions(ab, account) {
        let k = choose|k: int| 0 <= k < ab.len() && involves(#[trigger] ab[k], account);
        if k < a.len() {
            assert(a[k] == ab[k]);
        } else {
            assert(b[k - a.len()] == ab[k]);
        }
    }
}

/// Taking one more operation names an account exactly when the operations
/// before it or the new one do.
pub proof fn lemma_mentions_push(ops: Seq<Transaction>, op: Transaction, account: AccountId)
    ensures
        mentions(ops.push(op), account) == (mentions(ops, account) || involves(op, account)),
{
    let one = seq![op];
    assert(ops.push(op) =~= ops + one);
    lemma_mentions_concat(ops, one, account);
    if involves(op, account) {
        assert(involves(one[0], account));
    }
}

/// No sum is further from zero than the number of operations times the
/// largest magnitude of an amount.
pub proof fn lemma_signed_sum_bound(ops: Seq<Transaction>, account: AccountId)
    ensures
        -(ops.len() * 0x8000_0000_0000_0000) <= signed_sum(ops, account) <= ops.len()
            * 0x8000_0000_0000_0000,
    decreases ops.len(),
{
    if ops.len() > 0 {
        lemma_signed_sum_bound(ops.drop_last(), account);
    }
}

/// One more group adds its operations after those of the groups before it.
pub proof fn lemma_joined_push(groups: Seq<Seq<Transaction>>, group: Seq<Transaction>)
    ensures
        joined(groups.push(group)) == joined(groups) + group,
{
    assert(groups.push(group).drop_last() =~= groups);
    assert(groups.push(group).last() == group);
}

/// One more block adds its operations after those of the blocks before it.
pub proof fn lemma_all_operations_push(blocks: Seq<Block>, block: Block)
    ensures
        contents(blocks.push(block)) == contents(blocks).push(block.transactions@),
        all_operations(blocks.push(block)) == all_operations(blocks) + block.transactions@,
{
    assert(contents(blocks.push(block)) =~= contents(blocks).push(block.transactions@));
    lemma_joined_push(contents(blocks), block.transactions@);
}

/// The blocks up to a position hold no more operations than all the blocks.
pub proof fn lemma_all_operations_prefix(blocks: Seq<Block>, n: int)
    requires
        0 <= n <= blocks.len(),
    ensures
        all_operations(blocks.take(n)).len() <= all_operations(blocks).len(),
    decreases blocks.len() - n,
{
    if n < blocks.len() {
        lemma_all_operations_prefix(blocks, n + 1);
        assert(blocks.take(n + 1) =~= blocks.take(n).push(blocks[n]));
        lemma_all_operations_push(blocks.take(n), blocks[n]);
    } else {
        assert(blocks.take(n) =~= blocks);
    }
}

/// Operations that do not name an account add nothing to it.
pub proof fn lemma_unmentioned_sum_zero(ops: Seq<Transaction>, account: AccountId)
    requires
        !mentions(ops, account),
    ensures
        signed_sum(ops, account) == 0,
    decreases ops.len(),
{
    if ops.len() > 0 {
        assert(!involves(ops[ops.len() - 1], account));
        assert forall|i: int| 0 <= i < ops.drop_last().len() implies !involves(
            #[trigger] ops.drop_last()[i],
            account,
        ) by {
            assert(ops.drop_last()[i] == ops[i]);
        }
        lemma_unmentioned_sum_zero(ops.drop_last(), account);
    }
}

/// An account that the blocks up to a position name is named by all the
/// blocks.
pub proof fn lemma_mentions_suffix(blocks: Seq<Block>, n: int, account: AccountId)
    requires
        0 <= n <= blocks.len(),
        mentions(all_operations(blocks.take(n)), account),
    ensures
        mentions(all_operations(blocks), account),
    decreases blocks.len() - n,
{
    if n < blocks.len() {
        assert(blocks.take(n + 1) =~= blocks.take(n).push(blocks[n]));
        lemma_all_operations_push(blocks.take(n), blocks[n]);
        lemma_mentions_concat(all_operations(blocks.take(n)), blocks[n].transactions@, account);
        lemma_mentions_suffix(blocks, n + 1, account);
    } else {
        assert(blocks.take(n) =~= blocks);
    }
}

} // verus!
