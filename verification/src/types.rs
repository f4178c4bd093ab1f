//! The ledger's data: operations and blocks, and what each of them answers
//! about an account.

use vstd::prelude::*;
use crate::model::{
    all_operations, involves, lemma_all_operations_prefix, lemma_all_operations_push,
    lemma_mentions_concat, lemma_mentions_push, lemma_mentions_suffix, lemma_signed_sum_bound,
    lemma_signed_sum_concat, lemma_signed_sum_push, lemma_unmentioned_sum_zero, mentions,
    signed_sum,
};
use crate::traits::{BlockInfo, TransactionInfo};
use crate::utilities::{generate_id, id_of};

verus! {

pub type Id = u64;

pub type AccountId = Id;

pub type TransactionId = Id;

pub type BlockId = Id;

/// A quantity of value, counted in the ledger's smallest unit. It may be
/// negative.
pub type Amount = i64;

/// A net balance: a sum of amounts.
pub type Balance = i128;

pub type Transactions = Vec<Transaction>;

pub type Blocks = Vec<Block>;

/// The reserved account that issues value. It is the source of every account
/// creation and is never a party that a client may name.
pub const MASTER_ID: AccountId = 0;

/// One operation: `amount` moves from account `from` to account `to`.
#[derive(Clone, Copy, Debug, PartialEq, Eq)]
pub struct Transaction {
    pub id: TransactionId,
    pub to: AccountId,
    pub from: AccountId,
    pub amount: Amount,
}

/// A numbered batch of confirmed operations, in the order they were pending.
#[derive(Debug)]
pub struct Block {
    pub id: BlockId,
    pub transactions: Transactions,
}

impl Transaction {
    /// The operation that moves `amount` from `from` to `to`, submitted
    /// `seconds` after the epoch, under the identifier these four give it.
    pub fn new(to: AccountId, from: AccountId, amount: Amount, seconds: u64) -> (op: Transaction)
        ensures
            op.id == id_of(to, from, amount, seconds),
            op.to == to,
            op.from == from,
            op.amount == amount,
    {
        let id = generate_id(to, from, amount, seconds);
        Transaction { id, to, from, amount }
    }
}

impl TransactionInfo for Transactions {
    open spec fn operations(&self) -> Seq<Transaction> {
        self@
    }

    fn contains_account(&self, account: AccountId) -> (found: bool) {
        let mut i: usize = 0;
        while i < self.len()
            invariant
                i <= self.len(),
                !mentions(self@.take(i as int), account),
            decreases self.len() - i,
        {
            let op = &self[i];
            if op.to == account || op.from == account {
                assert(involves(self@[i as int], account));
                return true;
            }
            proof {
                assert(self@.take(i + 1) =~= self@.take(i as int).push(self@[i as int]));
                lemma_mentions_push(self@.take(i as int), self@[i as int], account);
            }
            i += 1;
        }
        assert(self@.take(i as int) =~= self@);
        false
    }

    fn calculate_total(&self, account: AccountId) -> (total: Option<Balance>) {
        let mut sum: Option<Balance> = None;
        let mut i: usize = 0;
        while i < self.len()
            invariant
                i <= self.len(),
                sum.is_some() == mentions(self@.take(i as int), account),
                sum matches Some(s) ==> s == signed_sum(self@.take(i as int), account),
            decreases self.len() - i,
        {
            let op = &self[i];
            proof {
                let before = self@.take(i as int);
                assert(self@.take(i + 1) =~= before.push(self@[i as int]));
                lemma_mentions_push(before, self@[i as int], account);
                lemma_signed_sum_push(before, self@[i as int], account);
                lemma_signed_sum_bound(before, account);
                if !mentions(before, account) {
                    lemma_unmentioned_sum_zero(before, account);
                }
            }
            let so_far: Balance = match sum {
                Some(s) => s,
                None => 0,
            };
            if op.to == account {
                sum = Some(so_far + (op.amount as Balance));
            } else if op.from == account {
                sum = Some(so_far - (op.amount as Balance));
            }
            i += 1;
        }
        assert(self@.take(i as int) =~= self@);
        sum
    }
}

impl TransactionInfo for Block {
    open spec fn operations(&self) -> Seq<Transaction> {
        self.transactions@
    }

    fn contains_account(&self, account: AccountId) -> (found: bool) {
        self.transactions.contains_account(account)
    }

    fn calculate_total(&self, account: AccountId) -> (total: Option<Balance>) {
        self.transactions.calculate_total(account)
    }
}

impl TransactionInfo for Blocks {
    open spec fn operations(&self) -> Seq<Transaction> {
        all_operations(self@)
    }

    fn contains_account(&self, account: AccountId) -> (found: bool) {
        let mut i: usize = 0;
        while i < self.len()
            invariant
                i <= self.len(),
                !mentions(all_operations(self@.take(i as int)), account),
            decreases self.len() - i,
        {
            proof {
                let before = self@.take(i as int);
                assert(self@.take(i + 1) =~= before.push(self@[i as int]));
                lemma_all_operations_push(before, self@[i as int]);
                lemma_mentions_concat(
                    all_operations(before),
                    self@[i as int].transactions@,
                    account,
                );
            }
            if self[i].contains_account(account) {
                proof {
                    lemma_mentions_suffix(self@, i + 1, account);
                }
                return true;
            }
            i += 1;
        }
        assert(self@.take(i as int) =~= self@);
        false
    }

    fn calculate_total(&self, account: AccountId) -> (total: Option<Balance>) {
        let mut sum: Option<Balance> = None;
        let mut i: usize = 0;
        while i < self.len()
            invariant
                i <= self.len(),
                all_operations(self@).len() <= usize::MAX,
                sum.is_some() == mentions(all_operations(self@.take(i as int)), account),
                sum matches Some(s) ==> s == signed_sum(
                    all_operations(self@.take(i as int)),
                    account,
                ),
            decreases self.len() - i,
        {
            proof {
                let before = self@.take(i as int);
                let here = self@[i as int].transactions@;
                assert(self@.take(i + 1) =~= before.push(self@[i as int]));
                lemma_all_operations_push(before, self@[i as int]);
                lemma_mentions_concat(all_operations(before), here, account);
                lemma_signed_sum_concat(all_operations(before), here, account);
                lemma_all_operations_prefix(self@, i + 1);
                lemma_signed_sum_bound(all_operations(before) + here, account);
                if !mentions(all_operations(before), account) {
                    lemma_unmentioned_sum_zero(all_operations(before), account);
                }
            }
            match self[i].calculate_total(account) {
                Some(amount) => {
                    let so_far: Balance = match sum {
                        Some(s) => s,
                        None => 0,
                    };
                    sum = Some(so_far + amount);
                },
                None => {
                    proof {
                        lemma_unmentioned_sum_zero(self@[i as int].transactions@, account);
                    }
                },
            }
            i += 1;
        }
        assert(self@.take(i as int) =~= self@);
        sum
    }
}

impl BlockInfo for Blocks {
    open spec fn block_operations(&self, block: BlockId) -> Seq<Transaction> {
        if block < self@.len() {
            self@[block as int].transactions@
        } else {
            Seq::empty()
        }
    }

    fn contains_transaction(&self, block: BlockId, transaction: TransactionId) -> (found: bool) {
        if block >= self.len() as u64 {
            return false;
        }
        let operations = &self[block as usize].transactions;
        let mut i: usize = 0;
        while i < operations.len()
            invariant
                i <= operations.len(),
                operations@ == self.block_operations(block),
                forall|k: int| 0 <= k < i ==> operations@[k].id != transaction,
            decreases operations.len() - i,
        {
            if operations[i].id == transaction {
                assert(operations@[i as int].id == transaction);
                return true;
            }
            i += 1;
        }
        false
    }
}

} // verus!
