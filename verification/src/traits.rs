//! The two questions every holder of operations answers: does it name an
//! account, and what does it add up to for that account.

use vstd::prelude::*;
use crate::model::{carries, mentions, signed_sum};
use crate::types::{AccountId, Balance, BlockId, Transaction, TransactionId};

verus! {

/// A value that holds operations in a fixed order.
pub trait TransactionInfo {
    /// The operations held, in order.
    spec fn operations(&self) -> Seq<Transaction>;

    /// Whether any operation held names `account`.
    fn contains_account(&self, account: AccountId) -> (found: bool)
        ensures
            found == mentions(self.operations(), account),
    ;

    /// The balance that the operations held give `account`: `None` when none
    /// of them names it, their signed sum otherwise.
    fn calculate_total(&self, account: AccountId) -> (total: Option<Balance>)
        requires
            self.operations().len() <= usize::MAX,
        ensures
            total.is_some() == mentions(self.operations(), account),
            total matches Some(sum) ==> sum == signed_sum(self.operations(), account),
    ;
}

/// A sequence of blocks that can be asked what a given block holds.
pub trait BlockInfo {
    /// The operations of the block at position `block`, in order; empty when
    /// there is no such block.
    spec fn block_operations(&self, block: BlockId) -> Seq<Transaction>;

    /// Whether the block at position `block` exists and holds an operation
    /// with the identifier `transaction`.
    fn contains_transaction(&self, block: BlockId, transaction: TransactionId) -> (found: bool)
        ensures
            found == carries(self.block_operations(block), transaction),
    ;
}

} // verus!
