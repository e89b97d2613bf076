//! The token as a state machine.
//!
//! A `LedgerState` is what a token holds, as plain mathematics: its name,
//! symbol and decimal places, the supply, the balances, the allowances and
//! the histories. A `Call` is one request
//! to change it. `refusal` says which calls are refused and why, `after`
//! says what state a call leaves behind, and the laws at the end show that
//! every state that calls can reach from a new token is consistent: its
//! supply is the sum of its balances, and no history exceeds the bound.
//!
//! The operations of the token in `token` are specified by this machine.

use vstd::prelude::*;
use crate::account::AccountId;
use crate::allowances::allowance_in;
use crate::balances::balance_after_transfer;
use crate::balances::balance_in;
use crate::balances::balances_after_transfer;
use crate::balances::lemma_balance_within_sum;
use crate::balances::lemma_sum_insert;
use crate::balances::lemma_sum_of_empty;
use crate::balances::lemma_transfer_conserves_sum;
use crate::balances::sum_of_balances;
use crate::error::PSP22Error;
use crate::history::histories_after;
use crate::history::history_after;
use crate::history::history_in;
use crate::history::TransferRecord;
use crate::history::MAX_HISTORY_SIZE;

verus! {

/// What a token holds.
pub struct LedgerState {
    /// The token's name, as characters.
    pub name: Seq<char>,
    /// The token's symbol, as characters.
    pub symbol: Seq<char>,
    /// The number of decimal places in which amounts are shown.
    pub decimals: u8,
    /// The total supply.
    pub total_supply: u128,
    /// What each account holds. An account without an entry holds nothing.
    pub balances: Map<AccountId, u128>,
    /// What each spender may move out of each owner's balance, by owner and
    /// spender. A pair without an entry has no authorization.
    pub allowances: Map<(AccountId, AccountId), u128>,
    /// The transfers that are remembered for each account, oldest first.
    pub histories: Map<AccountId, Seq<TransferRecord>>,
}

/// A request to change the state of a token, with the caller and, where a
/// transfer is to be remembered, the time of the call.
pub enum Call {
    /// The caller moves `value` of its own to `to`.
    Transfer { caller: AccountId, to: AccountId, value: u128, timestamp: u64 },
    /// The caller moves `value` from `from` to `to`, on `from`'s allowance.
    TransferFrom { caller: AccountId, from: AccountId, to: AccountId, value: u128, timestamp: u64 },
    /// The caller sets what `spender` may move out of its balance.
    Approve { caller: AccountId, spender: AccountId, value: u128 },
    /// The caller raises what `spender` may move out of its balance.
    IncreaseAllowance { caller: AccountId, spender: AccountId, value: u128 },
    /// The caller lowers what `spender` may move out of its balance.
    DecreaseAllowance { caller: AccountId, spender: AccountId, value: u128 },
    /// The caller destroys `value` of its own.
    Burn { caller: AccountId, value: u128 },
}

impl LedgerState {
    /// The state of a new token: `owner` holds the whole supply, nobody is
    /// authorized to spend, and no transfer is remembered.
    pub open spec fn initial(
        owner: AccountId,
        total_supply: u128,
        name: Seq<char>,
        symbol: Seq<char>,
        decimals: u8,
    ) -> LedgerState {
        LedgerState {
            name,
            symbol,
            decimals,
            total_supply,
            balances: Map::empty().insert(owner, total_supply),
            allowances: Map::empty(),
            histories: Map::empty(),
        }
    }

    /// What `account` holds.
    pub open spec fn balance_of(self, account: AccountId) -> u128 {
        balance_in(self.balances, account)
    }

    /// What `spender` may move out of `owner`'s balance.
    pub open spec fn allowance(self, owner: AccountId, spender: AccountId) -> u128 {
        allowance_in(self.allowances, owner, spender)
    }

    /// The transfers that are remembered for `account`, oldest first.
    pub open spec fn history(self, account: AccountId) -> Seq<TransferRecord> {
        history_in(self.histories, account)
    }

    /// The supply is the sum over all accounts of what they hold, and every
    /// history that is kept has at least one record and no more than the
    /// bound.
    pub open spec fn is_consistent(self) -> bool {
        &&& self.balances.dom().finite()
        &&& self.total_supply == sum_of_balances(self.balances)
        &&& forall|account: AccountId| #[trigger]
            self.histories.contains_key(account) ==> 0 < self.histories[account].len()
                <= MAX_HISTORY_SIZE
    }

    /// Why `call` is refused in this state, if it is.
    ///
    /// A transfer and a burn are refused where the account that pays holds
    /// less than the value. A delegated transfer is refused first where the
    /// allowance is less than the value, then where the balance is.
    /// Raising an allowance is refused where it would leave the range, and
    /// lowering it where it is less than the value. Approving is never
    /// refused.
    pub open spec fn refusal(self, call: Call) -> Option<PSP22Error> {
        match call {
            Call::Transfer { caller, to, value, timestamp } => {
                if self.balance_of(caller) < value {
                    Some(PSP22Error::InsufficientBalance)
                } else {
                    None
                }
            },
            Call::TransferFrom { caller, from, to, value, timestamp } => {
                if self.allowance(from, caller) < value {
                    Some(PSP22Error::InsufficientAllowance)
                } else if self.balance_of(from) < value {
                    Some(PSP22Error::InsufficientBalance)
                } else {
                    None
                }
            },
            Call::Approve { caller, spender, value } => None,
            Call::IncreaseAllowance { caller, spender, value } => {
                if self.allowance(caller, spender) + value > u128::MAX {
                    Some(PSP22Error::Overflow)
                } else {
                    None
                }
            },
            Call::DecreaseAllowance { caller, spender, value } => {
                if self.allowance(caller, spender) < value {
                    Some(PSP22Error::InsufficientAllowance)
                } else {
                    None
                }
            },
            Call::Burn { caller, value } => {
                if self.balance_of(caller) < value {
                    Some(PSP22Error::InsufficientBalance)
                } else {
                    None
                }
            },
        }
    }

    /// The state that `call` leaves behind where it is not refused.
    ///
    /// A transfer moves the value between the two balances and is
    /// remembered for both accounts. A delegated transfer does the same and
    /// uses the allowance up: the spender's entry is withdrawn, whatever
    /// part of it the value left. A burn takes the value out of the
    /// caller's balance and out of the supply.
    pub open spec fn applied(self, call: Call) -> LedgerState {
        match call {
            Call::Transfer { caller, to, value, timestamp } => LedgerState {
                balances: balances_after_transfer(self.balances, caller, to, value),
                histories: histories_after(
                    self.histories,
                    TransferRecord { from: caller, to, value, timestamp },
                ),
                ..self
            },
            Call::TransferFrom { caller, from, to, value, timestamp } => LedgerState {
                balances: balances_after_transfer(self.balances, from, to, value),
                allowances: self.allowances.remove((from, caller)),
                histories: histories_after(
                    self.histories,
                    TransferRecord { from, to, value, timestamp },
                ),
                ..self
            },
            Call::Approve { caller, spender, value } => LedgerState {
                allowances: self.allowances.insert((caller, spender), value),
                ..self
            },
            Call::IncreaseAllowance { caller, spender, value } => LedgerState {
                allowances: self.allowances.insert(
                    (caller, spender),
                    (self.allowance(caller, spender) + value) as u128,
                ),
                ..self
            },
            Call::DecreaseAllowance { caller, spender, value } => LedgerState {
                allowances: self.allowances.insert(
                    (caller, spender),
                    (self.allowance(caller, spender) - value) as u128,
                ),
                ..self
            },
            Call::Burn { caller, value } => LedgerState {
                total_supply: (self.total_supply - value) as u128,
                balances: self.balances.insert(
                    caller,
                    (self.balance_of(caller) - value) as u128,
                ),
                ..self
            },
        }
    }

    /// The state after `call`: the one that the call leaves behind, or this
    /// state unchanged where the call is refused.
    pub open spec fn after(self, call: Call) -> LedgerState {
        if self.refusal(call).is_some() {
            self
        } else {
            self.applied(call)
        }
    }

    /// A token in this state has answered `call` and is in the state
    /// `after`: it refused exactly where `refusal` says, with the same error,
    /// and `after` is the state after the call, which is consistent.
    pub open spec fn answers(
        self,
        call: Call,
        after: LedgerState,
        refused: Option<PSP22Error>,
    ) -> bool {
        &&& refused == self.refusal(call)
        &&& after == self.after(call)
        &&& after.is_consistent()
    }

    /// The state after each of `calls` in turn.
    pub open spec fn after_all(self, calls: Seq<Call>) -> LedgerState
        decreases calls.len(),
    {
        if calls.len() == 0 {
            self
        } else {
            self.after_all(calls.drop_last()).after(calls.last())
        }
    }

    /// The state of a new token is consistent.
    pub proof fn lemma_initial_is_consistent(
        owner: AccountId,
        total_supply: u128,
        name: Seq<char>,
        symbol: Seq<char>,
        decimals: u8,
    )
        ensures
            LedgerState::initial(owner, total_supply, name, symbol, decimals).is_consistent(),
    {
        lemma_sum_of_empty();
        lemma_sum_insert(Map::<AccountId, u128>::empty(), owner, total_supply);
    }

    /// A call on a consistent state leaves a consistent state behind,
    /// whether it is refused or not.
    pub proof fn lemma_call_keeps_consistency(self, call: Call)
        requires
            self.is_consistent(),
        ensures
            self.after(call).is_consistent(),
    {
        if self.refusal(call).is_none() {
            match call {
                Call::Transfer { caller, to, value, timestamp } => {
                    lemma_transfer_conserves_sum(self.balances, caller, to, value);
                },
                Call::TransferFrom { caller, from, to, value, timestamp } => {
                    lemma_transfer_conserves_sum(self.balances, from, to, value);
                },
                Call::Burn { caller, value } => {
                    lemma_balance_within_sum(self.balances, caller);
                    lemma_sum_insert(
                        self.balances,
                        caller,
                        (self.balance_of(caller) - value) as u128,
                    );
                },
                _ => {},
            }
        }
    }

    /// Every state that calls can reach from a consistent state is
    /// consistent.
    pub proof fn lemma_calls_keep_consistency(self, calls: Seq<Call>)
        requires
            self.is_consistent(),
        ensures
            self.after_all(calls).is_consistent(),
        decreases calls.len(),
    {
        if calls.len() > 0 {
            self.lemma_calls_keep_consistency(calls.drop_last());
            self.after_all(calls.drop_last()).lemma_call_keeps_consistency(calls.last());
        }
    }

    /// Every state that calls can reach from a new token is consistent: the
    /// supply is the sum over all accounts of what they hold, and no account
    /// has more remembered transfers than the bound.
    pub proof fn lemma_reachable_states_are_consistent(
        owner: AccountId,
        total_supply: u128,
        name: Seq<char>,
        symbol: Seq<char>,
        decimals: u8,
        calls: Seq<Call>,
    )
        ensures
            LedgerState::initial(owner, total_supply, name, symbol, decimals).after_all(
                calls,
            ).is_consistent(),
    {
        let start = LedgerState::initial(owner, total_supply, name, symbol, decimals);
        Self::lemma_initial_is_consistent(owner, total_supply, name, symbol, decimals);
        start.lemma_calls_keep_consistency(calls);
    }

    /// No call changes the name, the symbol or the decimal places.
    pub proof fn lemma_call_keeps_description(self, call: Call)
        ensures
            self.after(call).name == self.name,
            self.after(call).symbol == self.symbol,
            self.after(call).decimals == self.decimals,
    {
    }

    /// A transfer that takes place changes what each account holds by the
    /// value that it paid or received, appends the transfer to the history
    /// of the sender and of the recipient, and leaves the supply and the
    /// allowances as they were.
    pub proof fn lemma_transfer_effect(
        self,
        caller: AccountId,
        to: AccountId,
        value: u128,
        timestamp: u64,
        account: AccountId,
    )
        requires
            self.is_consistent(),
            self.refusal(Call::Transfer { caller, to, value, timestamp }).is_none(),
        ensures
            ({
                let after = self.after(Call::Transfer { caller, to, value, timestamp });
                &&& after.total_supply == self.total_supply
                &&& after.allowances == self.allowances
                &&& after.balance_of(account) == balance_after_transfer(
                    self.balance_of(account),
                    account,
                    caller,
                    to,
                    value,
                )
                &&& after.history(account) == history_after(
                    self.history(account),
                    account,
                    TransferRecord { from: caller, to, value, timestamp },
                )
            }),
    {
        lemma_transfer_conserves_sum(self.balances, caller, to, value);
    }

    /// A delegated transfer takes place only where the value is covered by
    /// the allowance and by the owner's balance. It then changes balances
    /// and histories as a transfer from the owner does, and leaves the
    /// spender without authorization from the owner.
    pub proof fn lemma_delegated_transfer_effect(
        self,
        caller: AccountId,
        from: AccountId,
        to: AccountId,
        value: u128,
        timestamp: u64,
        account: AccountId,
    )
        requires
            self.is_consistent(),
            self.refusal(Call::TransferFrom { caller, from, to, value, timestamp }).is_none(),
        ensures
            value <= self.allowance(from, caller),
            value <= self.balance_of(from),
            ({
                let after = self.after(Call::TransferFrom { caller, from, to, value, timestamp });
                &&& after.total_supply == self.total_supply
                &&& after.allowance(from, caller) == 0
                &&& after.balance_of(account) == balance_after_transfer(
                    self.balance_of(account),
                    account,
                    from,
                    to,
                    value,
                )
                &&& after.history(account) == history_after(
                    self.history(account),
                    account,
                    TransferRecord { from, to, value, timestamp },
                )
            }),
    {
        lemma_transfer_conserves_sum(self.balances, from, to, value);
    }

    /// A burn that takes place lowers the caller's balance and the supply by
    /// the value, and leaves every other balance as it was.
    pub proof fn lemma_burn_effect(self, caller: AccountId, value: u128, account: AccountId)
        requires
            self.is_consistent(),
            self.refusal(Call::Burn { caller, value }).is_none(),
        ensures
            ({
                let after = self.after(Call::Burn { caller, value });
                &&& after.total_supply == self.total_supply - value
                &&& after.balance_of(caller) == self.balance_of(caller) - value
                &&& account != caller ==> after.balance_of(account) == self.balance_of(account)
            }),
    {
        lemma_balance_within_sum(self.balances, caller);
    }

    /// A call that is refused changes nothing.
    pub proof fn lemma_refused_call_changes_nothing(self, call: Call)
        requires
            self.refusal(call).is_some(),
        ensures
            self.after(call) == self,
    {
    }
}

} // verus!
