//! The token: balances, allowances and transfer history behind one set of
//! operations, each of which either applies in full or changes nothing.
//!
//! `Psp22` is the set of operations with their contracts, and `PidChatPSP22`
//! is the token that offers them. Who calls and at what time is handed to
//! each operation in a `CallContext`; the token reads neither from anywhere
//! else. What each operation does is said by the state machine in `model`:
//! the view of a token is a `LedgerState`, and an operation answers one
//! `Call`.

use vstd::prelude::*;
use crate::account::AccountId;
use crate::allowances::AllowanceRegistry;
use crate::balances::sum_of_balances;
use crate::balances::BalanceLedger;
use crate::error::PSP22Error;
use crate::events::Transfer;
use crate::history::page_of;
use crate::history::TransferHistoryLog;
use crate::history::TransferRecord;
use crate::history::MAX_HISTORY_SIZE;
use crate::metadata::default_name;
use crate::metadata::default_symbol;
use crate::metadata::TokenMetadata;
use crate::model::Call;
use crate::model::LedgerState;

verus! {

/// Who called an operation, and when.
#[derive(Debug, Clone, Copy)]
pub struct CallContext {
    /// The account on whose behalf the operation runs.
    pub caller: AccountId,
    /// The time of the call, as the host counts it.
    pub timestamp: u64,
}

impl CallContext {
    /// The context of a call by `caller` at `timestamp`.
    pub fn new(caller: AccountId, timestamp: u64) -> (context: Self)
        ensures
            context == (CallContext { caller, timestamp }),
    {
        CallContext { caller, timestamp }
    }
}

/// The refusal that the outcome of an operation carries, if it carries one.
pub open spec fn refusal_in<T>(outcome: Result<T, PSP22Error>) -> Option<PSP22Error> {
    match outcome {
        Ok(_) => None,
        Err(error) => Some(error),
    }
}

/// The operations of a token, as those who hold and spend it see them.
///
/// What each operation does is said over the state of the token, by the
/// state machine: an operation that changes the token answers one `Call`.
/// It refuses exactly where the machine refuses, with the same error, and
/// then the token is as it was before; otherwise the token is in the state
/// that the call leaves behind. Either way that state is consistent.
pub trait Psp22: Sized {
    /// What the token holds: its name, symbol and decimal places, the
    /// supply, the balances, the allowances and the histories.
    spec fn state(&self) -> LedgerState;

    /// The token's name, as the bytes of its UTF-8 encoding.
    fn token_name(&self) -> (bytes: Vec<u8>)
        ensures
            bytes@ == vstd::utf8::encode_utf8(self.state().name),
    ;

    /// The token's symbol, as the bytes of its UTF-8 encoding.
    fn token_symbol(&self) -> (bytes: Vec<u8>)
        ensures
            bytes@ == vstd::utf8::encode_utf8(self.state().symbol),
    ;

    /// The number of decimal places in which amounts are shown.
    fn token_decimals(&self) -> (decimals: u8)
        ensures
            decimals == self.state().decimals,
    ;

    /// The total supply. In every state of the token it is the sum over all
    /// accounts of what they hold.
    fn total_supply(&self) -> (supply: u128)
        ensures
            supply == self.state().total_supply,
            supply == sum_of_balances(self.state().balances),
            self.state().is_consistent(),
    ;

    /// What `owner` holds: zero for an account that never received anything.
    /// No account holds more than the supply.
    fn balance_of(&self, owner: AccountId) -> (balance: u128)
        ensures
            balance == self.state().balance_of(owner),
            balance <= self.state().total_supply,
    ;

    /// What `spender` may move out of `owner`'s balance: zero if none was set.
    fn allowance(&self, owner: AccountId, spender: AccountId) -> (amount: u128)
        ensures
            amount == self.state().allowance(owner, spender),
    ;

    /// Moves `value` from the caller to `to` and remembers the transfer, or
    /// refuses and changes nothing where the caller holds less than `value`.
    /// A transfer that took place hands back the notice of it.
    fn transfer(
        &mut self,
        context: &CallContext,
        to: AccountId,
        value: u128,
    ) -> (outcome: Result<Transfer, PSP22Error>)
        ensures
            old(self).state().answers(
                (Call::Transfer {
                    caller: context.caller,
                    to,
                    value,
                    timestamp: context.timestamp,
                }),
                final(self).state(),
                refusal_in(outcome),
            ),
            outcome.is_err() ==> *final(self) == *old(self),
            outcome matches Ok(event) ==> event == (Transfer {
                from: Some(context.caller),
                to: Some(to),
                value,
            }),
    ;

    /// Moves `value` from `from` to `to` on the strength of the allowance
    /// that `from` gave the caller, and remembers the transfer. Refuses and
    /// changes nothing where the allowance is less than `value`, and then
    /// where `from` holds less than `value`.
    ///
    /// A transfer that took place uses the allowance up: the caller has no
    /// authorization from `from` afterwards, whatever part of the allowance
    /// `value` left. It hands back the notice of the transfer.
    fn transfer_from(
        &mut self,
        context: &CallContext,
        from: AccountId,
        to: AccountId,
        value: u128,
    ) -> (outcome: Result<Transfer, PSP22Error>)
        ensures
            old(self).state().answers(
                (Call::TransferFrom {
                    caller: context.caller,
                    from,
                    to,
                    value,
                    timestamp: context.timestamp,
                }),
                final(self).state(),
                refusal_in(outcome),
            ),
            outcome.is_err() ==> *final(self) == *old(self),
            outcome matches Ok(event) ==> event == (Transfer {
                from: Some(from),
                to: Some(to),
                value,
            }),
    ;

    /// Lets `spender` move up to `value` out of the caller's balance,
    /// whatever the allowance was before. This always succeeds.
    fn approve(
        &mut self,
        context: &CallContext,
        spender: AccountId,
        value: u128,
    ) -> (outcome: Result<(), PSP22Error>)
        ensures
            old(self).state().answers(
                (Call::Approve { caller: context.caller, spender, value }),
                final(self).state(),
                refusal_in(outcome),
            ),
            outcome.is_err() ==> *final(self) == *old(self),
            outcome.is_ok(),
    ;

    /// Raises what `spender` may move out of the caller's balance by
    /// `value`, or refuses and changes nothing where the allowance would
    /// leave the range.
    fn increase_allowance(
        &mut self,
        context: &CallContext,
        spender: AccountId,
        value: u128,
    ) -> (outcome: Result<(), PSP22Error>)
        ensures
            old(self).state().answers(
                (Call::IncreaseAllowance { caller: context.caller, spender, value }),
                final(self).state(),
                refusal_in(outcome),
            ),
            outcome.is_err() ==> *final(self) == *old(self),
    ;

    /// Lowers what `spender` may move out of the caller's balance by
    /// `value`, or refuses and changes nothing where the allowance is less
    /// than `value`.
    fn decrease_allowance(
        &mut self,
        context: &CallContext,
        spender: AccountId,
        value: u128,
    ) -> (outcome: Result<(), PSP22Error>)
        ensures
            old(self).state().answers(
                (Call::DecreaseAllowance { caller: context.caller, spender, value }),
                final(self).state(),
                refusal_in(outcome),
            ),
            outcome.is_err() ==> *final(self) == *old(self),
    ;

    /// Destroys `value` units that the caller holds: the caller's balance
    /// and the supply both fall by `value`. Refuses and changes nothing, the
    /// supply included, where the caller holds less.
    ///
    /// The units are always the caller's own: the account that is named as
    /// `from` plays no part.
    fn burn(
        &mut self,
        context: &CallContext,
        from: AccountId,
        value: u128,
    ) -> (outcome: Result<(), PSP22Error>)
        ensures
            old(self).state().answers(
                (Call::Burn { caller: context.caller, value }),
                final(self).state(),
                refusal_in(outcome),
            ),
            outcome.is_err() ==> *final(self) == *old(self),
    ;

    /// One page of the transfers that are remembered for the caller, oldest
    /// first: page `page`, counted from 1, with `limit` records to a page.
    /// Page 0, a limit of 0 and a page behind the end are empty.
    ///
    /// Reading changes nothing, so the same question has the same answer
    /// until the next transfer.
    fn history(
        &self,
        context: &CallContext,
        page: u32,
        limit: u32,
    ) -> (records: Vec<TransferRecord>)
        ensures
            records@ == page_of(
                self.state().history(context.caller),
                page as nat,
                limit as nat,
            ),
            page == 0 || limit == 0 ==> records@.len() == 0,
            records@.len() <= limit,
            records@.len() <= MAX_HISTORY_SIZE,
    ;
}

/// A fungible token.
///
/// In every state of a token the supply is the sum over all accounts of
/// what they hold, and no account has more remembered transfers than the
/// bound: the view of a token is always consistent.
pub struct PidChatPSP22 {
    metadata: TokenMetadata,
    ledger: BalanceLedger,
    allowances: AllowanceRegistry,
    history: TransferHistoryLog,
}

impl View for PidChatPSP22 {
    type V = LedgerState;

    /// What the token holds: its name, symbol and decimal places, the
    /// supply, the balances, the allowances and the histories.
    open spec fn view(&self) -> LedgerState {
        LedgerState {
            name: self.metadata().spec_name(),
            symbol: self.metadata().spec_symbol(),
            decimals: self.metadata().spec_decimals(),
            total_supply: self.ledger().spec_total_supply(),
            balances: self.ledger()@,
            allowances: self.registry()@,
            histories: self.log()@,
        }
    }
}

impl PidChatPSP22 {
    /// The token's name, symbol and decimal places.
    pub closed spec fn metadata(&self) -> TokenMetadata {
        self.metadata
    }

    /// The balances and the supply.
    pub closed spec fn ledger(&self) -> BalanceLedger {
        self.ledger
    }

    /// The allowances.
    pub closed spec fn registry(&self) -> AllowanceRegistry {
        self.allowances
    }

    /// The transfer history.
    pub closed spec fn log(&self) -> TransferHistoryLog {
        self.history
    }

    /// A new token whose whole supply of `total_supply` is held by the
    /// caller. Nobody is authorized to spend, and no transfer is remembered.
    /// A name or a symbol that is not given is the default one.
    pub fn new(
        context: &CallContext,
        total_supply: u128,
        name: Option<String>,
        symbol: Option<String>,
        decimals: u8,
    ) -> (token: Self)
        ensures
            token@ == LedgerState::initial(
                context.caller,
                total_supply,
                match name {
                    Some(given) => given@,
                    None => default_name(),
                },
                match symbol {
                    Some(given) => given@,
                    None => default_symbol(),
                },
                decimals,
            ),
            token@.is_consistent(),
    {
        let mut ledger = BalanceLedger::new();
        let minted = ledger.mint(context.caller, total_supply);
        assert(minted.is_ok());
        let token = PidChatPSP22 {
            metadata: TokenMetadata::new(name, symbol, decimals),
            ledger,
            allowances: AllowanceRegistry::new(),
            history: TransferHistoryLog::new(),
        };
        proof {
            use_type_invariant(&token.ledger);
            use_type_invariant(&token.history);
        }
        token
    }

    /// The token that is made of the given parts.
    pub fn from_parts(
        metadata: TokenMetadata,
        ledger: BalanceLedger,
        allowances: AllowanceRegistry,
        history: TransferHistoryLog,
    ) -> (token: Self)
        ensures
            token@.is_consistent(),
            token.metadata() == metadata,
            token.ledger() == ledger,
            token.registry() == allowances,
            token.log() == history,
    {
        proof {
            use_type_invariant(&ledger);
            use_type_invariant(&history);
        }
        PidChatPSP22 { metadata, ledger, allowances, history }
    }

    /// Takes the token apart into its metadata, its balances with the
    /// supply, its allowances and its transfer history.
    pub fn into_parts(self) -> (parts: (
        TokenMetadata,
        BalanceLedger,
        AllowanceRegistry,
        TransferHistoryLog,
    ))
        ensures
            parts.0 == self.metadata(),
            parts.1 == self.ledger(),
            parts.2 == self.registry(),
            parts.3 == self.log(),
    {
        let PidChatPSP22 { metadata, ledger, allowances, history } = self;
        (metadata, ledger, allowances, history)
    }
}

impl Psp22 for PidChatPSP22 {
    open spec fn state(&self) -> LedgerState {
        self@
    }

    fn token_name(&self) -> (bytes: Vec<u8>)
    {
        self.metadata.name_bytes()
    }

    fn token_symbol(&self) -> (bytes: Vec<u8>)
    {
        self.metadata.symbol_bytes()
    }

    fn token_decimals(&self) -> (decimals: u8)
    {
        self.metadata.decimals()
    }

    fn total_supply(&self) -> (supply: u128)
    {
        proof {
            use_type_invariant(&self.ledger);
            use_type_invariant(&self.history);
        }
        self.ledger.total_supply()
    }

    fn balance_of(&self, owner: AccountId) -> (balance: u128)
    {
        self.ledger.balance_of(owner)
    }

    fn allowance(&self, owner: AccountId, spender: AccountId) -> (amount: u128)
    {
        self.allowances.allowance(owner, spender)
    }

    fn transfer(
        &mut self,
        context: &CallContext,
        to: AccountId,
        value: u128,
    ) -> (outcome: Result<Transfer, PSP22Error>)
    {
        let caller = context.caller;
        let moved = self.ledger.transfer(caller, to, value);
        if moved.is_ok() {
            self.history.record(caller, to, value, context.timestamp);
        }
        proof {
            use_type_invariant(&self.ledger);
            use_type_invariant(&self.history);
        }
        match moved {
            Ok(()) => Ok(Transfer::new(Some(caller), Some(to), value)),
            Err(error) => Err(error),
        }
    }

    fn transfer_from(
        &mut self,
        context: &CallContext,
        from: AccountId,
        to: AccountId,
        value: u128,
    ) -> (outcome: Result<Transfer, PSP22Error>)
    {
        let caller = context.caller;
        proof {
            use_type_invariant(&self.ledger);
            use_type_invariant(&self.history);
        }
        if self.allowances.allowance(from, caller) < value {
            return Err(PSP22Error::InsufficientAllowance);
        }
        let moved = self.ledger.transfer(from, to, value);
        if moved.is_ok() {
            let consumed = self.allowances.consume(from, caller, value);
            assert(consumed.is_ok());
            self.history.record(from, to, value, context.timestamp);
        }
        proof {
            use_type_invariant(&self.ledger);
            use_type_invariant(&self.history);
        }
        match moved {
            Ok(()) => Ok(Transfer::new(Some(from), Some(to), value)),
            Err(error) => Err(error),
        }
    }

    fn approve(
        &mut self,
        context: &CallContext,
        spender: AccountId,
        value: u128,
    ) -> (outcome: Result<(), PSP22Error>)
    {
        self.allowances.approve(context.caller, spender, value);
        proof {
            use_type_invariant(&self.ledger);
            use_type_invariant(&self.history);
        }
        Ok(())
    }

    fn increase_allowance(
        &mut self,
        context: &CallContext,
        spender: AccountId,
        value: u128,
    ) -> (outcome: Result<(), PSP22Error>)
    {
        let outcome = self.allowances.increase(context.caller, spender, value);
        proof {
            use_type_invariant(&self.ledger);
            use_type_invariant(&self.history);
        }
        outcome
    }

    fn decrease_allowance(
        &mut self,
        context: &CallContext,
        spender: AccountId,
        value: u128,
    ) -> (outcome: Result<(), PSP22Error>)
    {
        let outcome = self.allowances.decrease(context.caller, spender, value);
        proof {
            use_type_invariant(&self.ledger);
            use_type_invariant(&self.history);
        }
        outcome
    }

    fn burn(
        &mut self,
        context: &CallContext,
        from: AccountId,
        value: u128,
    ) -> (outcome: Result<(), PSP22Error>)
    {
        let _ = from;
        let outcome = self.ledger.burn(context.caller, value);
        proof {
            use_type_invariant(&self.ledger);
            use_type_invariant(&self.history);
        }
        outcome
    }

    fn history(
        &self,
        context: &CallContext,
        page: u32,
        limit: u32,
    ) -> (records: Vec<TransferRecord>)
    {
        proof {
            use_type_invariant(&self.history);
        }
        self.history.query(context.caller, page, limit)
    }
}

} // verus!
