//! The request handler's rules: what a request is answered with, which
//! operation it puts into the pending buffer, and when a waiting request is
//! confirmed.

use vstd::prelude::*;
use crate::client::ClientCommands;
use crate::model::{contents, holds, ledger_operations, mentions, signed_sum};
use crate::store::{account_exists, balance, block_contains};
use crate::types::{
    AccountId, Amount, Balance, Block, BlockId, Blocks, MASTER_ID, Transaction, TransactionId,
    Transactions,
};
use crate::utilities::id_of;

verus! {

/// What a request is answered with when it succeeds.
#[derive(Clone, Copy, Debug, PartialEq, Eq)]
pub enum ServerResponse {
    /// The operation `transaction_id` is confirmed in block `block_id`.
    Transferred { block_id: BlockId, transaction_id: TransactionId },
    /// The balance asked for.
    Balance { balance: Balance },
}

/// Why a request is turned down. No rejection changes the ledger.
#[derive(Clone, Copy, Debug, PartialEq, Eq)]
pub enum Rejection {
    /// The balance of the reserved account was asked for.
    ReservedBalance,
    /// The reserved account was to be opened.
    ReservedCreate,
    /// The reserved account was named as the sender of a transfer.
    ReservedSender,
    /// The reserved account was named as the recipient of a transfer.
    ReservedRecipient,
    /// The account to open is already named by some operation.
    AccountExists { account: AccountId },
    /// No operation names the account whose balance was asked for.
    AccountNotFound { account: AccountId },
    /// The sender has no balance, or less than `amount`.
    InsufficientFunds { account: AccountId, amount: Amount, available: Option<Balance> },
}

/// What the handler does with a request once it has read the ledger.
#[derive(Clone, Copy, Debug, PartialEq, Eq)]
pub enum Decision {
    /// Answer at once; the ledger stays as it is.
    Reply(Result<ServerResponse, Rejection>),
    /// Submit this operation and wait for its confirmation.
    Enqueue(Transaction),
}

/// The balance of `account` in the model: none when no operation names it.
pub open spec fn known_balance(ops: Seq<Transaction>, account: AccountId) -> Option<Balance> {
    if mentions(ops, account) {
        Some(signed_sum(ops, account) as Balance)
    } else {
        None
    }
}

/// The operation that a request accepted at `seconds` puts into the ledger.
pub open spec fn operation_for(to: AccountId, from: AccountId, amount: Amount, seconds: u64)
    -> Transaction {
    Transaction { id: id_of(to, from, amount, seconds) as TransactionId, to, from, amount }
}

/// The handler's rules, over everything the ledger holds.
///
/// A balance request is refused for the reserved account and for an account
/// that no operation names, and answered with the balance otherwise. An
/// account is opened by an operation from the reserved account, unless it is
/// the reserved account or is already named. A transfer is refused when
/// either party is the reserved account (the sender is looked at first) and
/// when the sender has no balance or less than the amount.
pub open spec fn decision(command: ClientCommands, ops: Seq<Transaction>, seconds: u64)
    -> Decision {
    match command {
        ClientCommands::Balance { account } => {
            if account == MASTER_ID {
                Decision::Reply(Err(Rejection::ReservedBalance))
            } else {
                match known_balance(ops, account) {
                    Some(balance) => Decision::Reply(Ok(ServerResponse::Balance { balance })),
                    None => Decision::Reply(Err(Rejection::AccountNotFound { account })),
                }
            }
        },
        ClientCommands::CreateAccount { account, starting_balance } => {
            if account == MASTER_ID {
                Decision::Reply(Err(Rejection::ReservedCreate))
            } else if mentions(ops, account) {
                Decision::Reply(Err(Rejection::AccountExists { account }))
            } else {
                Decision::Enqueue(operation_for(account, MASTER_ID, starting_balance, seconds))
            }
        },
        ClientCommands::Transfer { from_account, to_account, amount } => {
            if from_account == MASTER_ID {
                Decision::Reply(Err(Rejection::ReservedSender))
            } else if to_account == MASTER_ID {
                Decision::Reply(Err(Rejection::ReservedRecipient))
            } else {
                let available = known_balance(ops, from_account);
                if available matches Some(balance) && balance >= amount {
                    Decision::Enqueue(operation_for(to_account, from_account, amount, seconds))
                } else {
                    Decision::Reply(
                        Err(
                            Rejection::InsufficientFunds {
                                account: from_account,
                                amount,
                                available,
                            },
                        ),
                    )
                }
            }
        },
    }
}

/// Decides a request against one reading of the confirmed blocks and the
/// pending buffer, for a request that arrived `seconds` after the epoch.
/// Nothing is changed: an operation to enqueue is handed back, not
/// submitted. Deciding and submitting are two steps, and the rules are not
/// looked at again when the operation is submitted: requests decided on the
/// same reading are all accepted on it, so two transfers that each fit the
/// sender's balance may together overdraw it.
pub fn decide(command: ClientCommands, blocks: &Blocks, pending: &Transactions, seconds: u64)
    -> (outcome: Decision)
    requires
        ledger_operations(blocks@, pending@).len() <= usize::MAX,
    ensures
        outcome == decision(command, ledger_operations(blocks@, pending@), seconds),
{
    match command {
        ClientCommands::Balance { account } => {
            if account == MASTER_ID {
                Decision::Reply(Err(Rejection::ReservedBalance))
            } else {
                match balance(blocks, pending, account) {
                    Some(balance) => Decision::Reply(Ok(ServerResponse::Balance { balance })),
                    None => Decision::Reply(Err(Rejection::AccountNotFound { account })),
                }
            }
        },
        ClientCommands::CreateAccount { account, starting_balance } => {
            if account == MASTER_ID {
                Decision::Reply(Err(Rejection::ReservedCreate))
            } else if account_exists(blocks, pending, account) {
                Decision::Reply(Err(Rejection::AccountExists { account }))
            } else {
                Decision::Enqueue(Transaction::new(account, MASTER_ID, starting_balance, seconds))
            }
        },
        ClientCommands::Transfer { from_account, to_account, amount } => {
            if from_account == MASTER_ID {
                Decision::Reply(Err(Rejection::ReservedSender))
            } else if to_account == MASTER_ID {
                Decision::Reply(Err(Rejection::ReservedRecipient))
            } else {
                let available = balance(blocks, pending, from_account);
                let covered = match available {
                    Some(balance) => balance >= amount as Balance,
                    None => false,
                };
                if covered {
                    Decision::Enqueue(Transaction::new(to_account, from_account, amount, seconds))
                } else {
                    Decision::Reply(
                        Err(
                            Rejection::InsufficientFunds {
                                account: from_account,
                                amount,
                                available,
                            },
                        ),
                    )
                }
            }
        },
    }
}

/// What a waiting request learns from one publication: its answer, if the
/// published block exists and holds the operation, and nothing otherwise, in
/// which case the request waits for the next publication.
pub open spec fn confirmation(
    blocks: Seq<Block>,
    published: BlockId,
    transaction_id: TransactionId,
) -> Option<ServerResponse> {
    if holds(contents(blocks), published, transaction_id) {
        Some(ServerResponse::Transferred { block_id: published, transaction_id })
    } else {
        None
    }
}

/// Checks one publication for a waiting request.
pub fn confirm(blocks: &Blocks, published: BlockId, transaction_id: TransactionId) -> (answer:
    Option<ServerResponse>)
    ensures
        answer == confirmation(blocks@, published, transaction_id),
{
    if block_contains(blocks, published, transaction_id) {
        Some(ServerResponse::Transferred { block_id: published, transaction_id })
    } else {
        None
    }
}

} // verus!
