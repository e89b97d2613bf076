//! What the ledger tells the outside about: transfers and approvals.

use vstd::prelude::*;
use crate::account::AccountId;

verus! {

/// Notice that `value` moved from `from` to `to`. A side that is `None`
/// stands for no account: units that were created or destroyed.
#[derive(Debug, Clone, Copy, PartialEq, Eq)]
pub struct Transfer {
    pub from: Option<AccountId>,
    pub to: Option<AccountId>,
    pub value: u128,
}

/// Notice that `spender` may move up to `value` out of `owner`'s balance.
#[derive(Debug, Clone, Copy, PartialEq, Eq)]
pub struct Approval {
    pub owner: AccountId,
    pub spender: AccountId,
    pub value: u128,
}

impl Transfer {
    /// The notice of a transfer of `amount` from `from` to `to`.
    pub fn new(from: Option<AccountId>, to: Option<AccountId>, amount: u128) -> (event: Self)
        ensures
            event == (Transfer { from, to, value: amount }),
    {
        Transfer { from, to, value: amount }
    }
}

impl Approval {
    /// The notice that `owner` lets `spender` move up to `amount`.
    pub fn new(owner: AccountId, spender: AccountId, amount: u128) -> (event: Self)
        ensures
            event == (Approval { owner, spender, value: amount }),
    {
        Approval { owner, spender, value: amount }
    }
}

} // verus!
