//! Allowances: how much a spender may move out of an owner's balance.

use vstd::prelude::*;
use crate::account::AccountId;
use crate::error::PSP22Error;
use crate::table::is_listing;
use crate::table::Entry;
use crate::table::Key;
use crate::table::Table;

verus! {

impl Key for (AccountId, AccountId) {
    fn same(&self, other: &Self) -> (equal: bool) {
        self.0 == other.0 && self.1 == other.1
    }
}

/// What `spender` may move out of `owner`'s balance according to
/// `allowances`: a pair without an entry has no authorization.
pub open spec fn allowance_in(
    allowances: Map<(AccountId, AccountId), u128>,
    owner: AccountId,
    spender: AccountId,
) -> u128 {
    if allowances.contains_key((owner, spender)) {
        allowances[(owner, spender)]
    } else {
        0
    }
}

/// An allowance is a magnitude: it is never negative, and it stays within
/// the range of a balance.
pub proof fn lemma_allowance_in_range(
    allowances: Map<(AccountId, AccountId), u128>,
    owner: AccountId,
    spender: AccountId,
)
    ensures
        0 <= allowance_in(allowances, owner, spender) <= u128::MAX,
{
}

/// The mapping from each pair of owner and spender to the spender's limit.
pub struct AllowanceRegistry {
    table: Table<(AccountId, AccountId), u128>,
}

impl View for AllowanceRegistry {
    type V = Map<(AccountId, AccountId), u128>;

    /// The limits that are recorded, by owner and spender.
    closed spec fn view(&self) -> Map<(AccountId, AccountId), u128> {
        self.table@
    }
}

impl AllowanceRegistry {
    /// What `spender` may move out of `owner`'s balance.
    pub open spec fn spec_allowance(&self, owner: AccountId, spender: AccountId) -> u128 {
        allowance_in(self@, owner, spender)
    }

    /// The registry in which nobody is authorized.
    pub fn new() -> (registry: Self)
        ensures
            registry@ == Map::<(AccountId, AccountId), u128>::empty(),
    {
        AllowanceRegistry { table: Table::new() }
    }

    /// Takes the registry apart into one entry for each pair of owner and
    /// spender that has one, in no particular order.
    pub fn into_entries(self) -> (entries: Vec<Entry<(AccountId, AccountId), u128>>)
        ensures
            is_listing(entries@, self@),
    {
        self.table.into_entries()
    }

    /// What `spender` may move out of `owner`'s balance: zero if none was set.
    pub fn allowance(&self, owner: AccountId, spender: AccountId) -> (amount: u128)
        ensures
            amount == self.spec_allowance(owner, spender),
    {
        match self.table.get(&(owner, spender)) {
            Some(amount) => *amount,
            None => 0,
        }
    }

    /// Sets the allowance to `amount`, whatever it was before.
    pub fn approve(&mut self, owner: AccountId, spender: AccountId, amount: u128)
        ensures
            final(self)@ == old(self)@.insert((owner, spender), amount),
    {
        self.table.insert((owner, spender), amount);
    }

    /// Raises the allowance by `amount`, or refuses and changes nothing where
    /// the new allowance would leave the range.
    pub fn increase(
        &mut self,
        owner: AccountId,
        spender: AccountId,
        amount: u128,
    ) -> (outcome: Result<(), PSP22Error>)
        ensures
            match outcome {
                Ok(()) => {
                    &&& old(self).spec_allowance(owner, spender) + amount <= u128::MAX
                    &&& final(self)@ == old(self)@.insert(
                        (owner, spender),
                        (old(self).spec_allowance(owner, spender) + amount) as u128,
                    )
                },
                Err(error) => {
                    &&& error == PSP22Error::Overflow
                    &&& old(self).spec_allowance(owner, spender) + amount > u128::MAX
                    &&& *final(self) == *old(self)
                },
            },
    {
        let current = self.allowance(owner, spender);
        if amount > u128::MAX - current {
            return Err(PSP22Error::Overflow);
        }
        self.table.insert((owner, spender), current + amount);
        Ok(())
    }

    /// Lowers the allowance by `amount`, or refuses and changes nothing where
    /// the allowance is less than `amount`.
    pub fn decrease(
        &mut self,
        owner: AccountId,
        spender: AccountId,
        amount: u128,
    ) -> (outcome: Result<(), PSP22Error>)
        ensures
            match outcome {
                Ok(()) => {
                    &&& old(self).spec_allowance(owner, spender) >= amount
                    &&& final(self)@ == old(self)@.insert(
                        (owner, spender),
                        (old(self).spec_allowance(owner, spender) - amount) as u128,
                    )
                },
                Err(error) => {
                    &&& error == PSP22Error::InsufficientAllowance
                    &&& old(self).spec_allowance(owner, spender) < amount
                    &&& *final(self) == *old(self)
                },
            },
    {
        let current = self.allowance(owner, spender);
        if current < amount {
            return Err(PSP22Error::InsufficientAllowance);
        }
        self.table.insert((owner, spender), current - amount);
        Ok(())
    }

    /// Uses the allowance for a delegated transfer of `amount`, or refuses and
    /// changes nothing where the allowance is less than `amount`.
    ///
    /// A delegated transfer uses the allowance up: whatever part of it
    /// `amount` leaves is withdrawn as well, and the spender has no
    /// authorization afterwards.
    pub fn consume(
        &mut self,
        owner: AccountId,
        spender: AccountId,
        amount: u128,
    ) -> (outcome: Result<(), PSP22Error>)
        ensures
            match outcome {
                Ok(()) => {
                    &&& old(self).spec_allowance(owner, spender) >= amount
                    &&& final(self)@ == old(self)@.remove((owner, spender))
                },
                Err(error) => {
                    &&& error == PSP22Error::InsufficientAllowance
                    &&& old(self).spec_allowance(owner, spender) < amount
                    &&& *final(self) == *old(self)
                },
            },
    {
        let current = self.allowance(owner, spender);
        if current < amount {
            return Err(PSP22Error::InsufficientAllowance);
        }
        self.table.remove(&(owner, spender));
        Ok(())
    }
}

} // verus!
