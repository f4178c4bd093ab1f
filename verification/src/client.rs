//! What a client may ask of the node.

use vstd::prelude::*;
use crate::types::{AccountId, Amount};

verus! {

/// A request, as the transport hands it over.
#[derive(Clone, Copy, Debug, PartialEq, Eq)]
pub enum ClientCommands {
    /// Open `account` with `starting_balance`, issued by the reserved account.
    CreateAccount { account: AccountId, starting_balance: Amount },
    /// Move `amount` from `from_account` to `to_account`.
    Transfer { from_account: AccountId, to_account: AccountId, amount: Amount },
    /// Report the balance of `account`.
    Balance { account: AccountId },
}

} // verus!
