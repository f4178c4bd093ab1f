//! The requests a client sends, one function for each.

use vstd::prelude::*;
use crate::client::ClientCommands;
use crate::types::{AccountId, Amount};

verus! {

/// The request that opens `account` with `starting_balance`.
pub fn create_account(account: AccountId, starting_balance: Amount) -> (command: ClientCommands)
    ensures
        command == (ClientCommands::CreateAccount { account, starting_balance }),
{
    ClientCommands::CreateAccount { account, starting_balance }
}

/// The request that moves `amount` from `from_account` to `to_account`.
pub fn transfer(from_account: AccountId, to_account: AccountId, amount: Amount) -> (command:
    ClientCommands)
    ensures
        command == (ClientCommands::Transfer { from_account, to_account, amount }),
{
    ClientCommands::Transfer { from_account, to_account, amount }
}

/// The request that asks for the balance of `account`.
pub fn check_balance(account: AccountId) -> (command: ClientCommands)
    ensures
        command == (ClientCommands::Balance { account }),
{
    ClientCommands::Balance { account }
}

} // verus!
