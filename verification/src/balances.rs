//! Balances: what each account holds, and the supply they add up to.
//!
//! `Balances` is the plain mapping from account to balance, with the two
//! steps of a transfer, `debit` and `credit`. `BalanceLedger` pairs such a
//! mapping with the total supply and keeps the two in agreement: every value
//! of the type has a supply equal to the sum of its balances.

use vstd::prelude::*;
use crate::account::AccountId;
use crate::error::PSP22Error;
use crate::table::is_listing;
use crate::table::Entry;
use crate::table::Table;

verus! {

/// The sum of all the balances in a finite map.
pub open spec fn sum_of_balances(balances: Map<AccountId, u128>) -> nat
    decreases balances.dom().len(),
    when balances.dom().finite()
{
    if balances.dom().len() == 0 {
        0
    } else {
        let account = balances.dom().choose();
        balances[account] as nat + sum_of_balances(balances.remove(account))
    }
}

/// What `account` holds in `balances`: an account without an entry holds nothing.
pub open spec fn balance_in(balances: Map<AccountId, u128>, account: AccountId) -> u128 {
    if balances.contains_key(account) {
        balances[account]
    } else {
        0
    }
}

/// The empty map sums to nothing.
pub proof fn lemma_sum_of_empty()
    ensures
        sum_of_balances(Map::<AccountId, u128>::empty()) == 0,
{
}

/// The sum may be taken with any one account first: it is that account's
/// balance plus the sum over the others.
pub proof fn lemma_sum_split(balances: Map<AccountId, u128>, account: AccountId)
    requires
        balances.dom().finite(),
        balances.contains_key(account),
    ensures
        sum_of_balances(balances)
            == balances[account] as nat + sum_of_balances(balances.remove(account)),
    decreases balances.dom().len(),
{
    let first = balances.dom().choose();
    if first != account {
        let without_first = balances.remove(first);
        let without_account = balances.remove(account);
        lemma_sum_split(without_first, account);
        lemma_sum_split(without_account, first);
        assert(without_first.remove(account) =~= without_account.remove(first));
    }
}

/// Writing `amount` under `account` changes the sum by the difference
/// between `amount` and what the account held.
pub proof fn lemma_sum_insert(balances: Map<AccountId, u128>, account: AccountId, amount: u128)
    requires
        balances.dom().finite(),
    ensures
        sum_of_balances(balances.insert(account, amount))
            == sum_of_balances(balances) - balance_in(balances, account) + amount,
{
    let after = balances.insert(account, amount);
    lemma_sum_split(after, account);
    assert(after.remove(account) =~= balances.remove(account));
    if balances.contains_key(account) {
        lemma_sum_split(balances, account);
    } else {
        assert(balances.remove(account) =~= balances);
    }
}

/// No account holds more than the sum of all balances.
pub proof fn lemma_balance_within_sum(balances: Map<AccountId, u128>, account: AccountId)
    requires
        balances.dom().finite(),
    ensures
        balance_in(balances, account) <= sum_of_balances(balances),
{
    if balances.contains_key(account) {
        lemma_sum_split(balances, account);
    }
}

/// What an account holds after `amount` has moved from `from` to `to`,
/// where it held `balance` before: the sender's balance falls by `amount`,
/// the recipient's rises by `amount`, and one that is both keeps its balance.
pub open spec fn balance_after_transfer(
    balance: u128,
    account: AccountId,
    from: AccountId,
    to: AccountId,
    amount: u128,
) -> int {
    let paid = if account == from { amount as int } else { 0 };
    let received = if account == to { amount as int } else { 0 };
    balance - paid + received
}

/// The balances after `amount` has moved from `from` to `to`: the sender's
/// entry is written with `amount` less, then the recipient's with `amount`
/// more.
pub open spec fn balances_after_transfer(
    balances: Map<AccountId, u128>,
    from: AccountId,
    to: AccountId,
    amount: u128,
) -> Map<AccountId, u128> {
    let debited = balances.insert(from, (balance_in(balances, from) - amount) as u128);
    debited.insert(to, (balance_in(debited, to) + amount) as u128)
}

/// A transfer that the sender can afford conserves the sum of all balances,
/// and changes what each account holds as `balance_after_transfer` says.
pub proof fn lemma_transfer_conserves_sum(
    balances: Map<AccountId, u128>,
    from: AccountId,
    to: AccountId,
    amount: u128,
)
    requires
        balances.dom().finite(),
        sum_of_balances(balances) <= u128::MAX,
        balance_in(balances, from) >= amount,
    ensures
        balances_after_transfer(balances, from, to, amount).dom().finite(),
        sum_of_balances(balances_after_transfer(balances, from, to, amount))
            == sum_of_balances(balances),
        forall|account: AccountId|
            balance_in(balances_after_transfer(balances, from, to, amount), account)
                == balance_after_transfer(
                    #[trigger] balance_in(balances, account),
                    account,
                    from,
                    to,
                    amount,
                ),
{
    let debited = balances.insert(from, (balance_in(balances, from) - amount) as u128);
    lemma_sum_insert(balances, from, (balance_in(balances, from) - amount) as u128);
    lemma_balance_within_sum(debited, to);
    lemma_sum_insert(debited, to, (balance_in(debited, to) + amount) as u128);
}

/// The mapping from each account to its balance.
pub struct Balances {
    table: Table<AccountId, u128>,
}

impl View for Balances {
    type V = Map<AccountId, u128>;

    /// The balances that are recorded. An account without an entry holds nothing.
    closed spec fn view(&self) -> Map<AccountId, u128> {
        self.table@
    }
}

impl Balances {
    /// What `account` holds.
    pub open spec fn spec_balance_of(&self, account: AccountId) -> u128 {
        balance_in(self@, account)
    }

    /// The sum of what all accounts hold.
    pub open spec fn spec_sum(&self) -> nat {
        sum_of_balances(self@)
    }

    /// Only finitely many accounts have an entry.
    pub proof fn lemma_finite(self)
        ensures
            self@.dom().finite(),
    {
        self.table.lemma_finite();
    }

    /// The mapping in which nobody holds anything.
    pub fn new() -> (balances: Self)
        ensures
            balances@ == Map::<AccountId, u128>::empty(),
    {
        Balances { table: Table::new() }
    }

    /// Takes the mapping apart into one entry for each account that has
    /// one, in no particular order.
    pub fn into_entries(self) -> (entries: Vec<Entry<AccountId, u128>>)
        ensures
            is_listing(entries@, self@),
    {
        self.table.into_entries()
    }

    /// What `account` holds: zero for an account that was never credited.
    pub fn balance_of(&self, account: AccountId) -> (balance: u128)
        ensures
            balance == self.spec_balance_of(account),
    {
        match self.table.get(&account) {
            Some(balance) => *balance,
            None => 0,
        }
    }

    /// Takes `amount` out of what `account` holds, or refuses and changes
    /// nothing where the account holds less.
    pub fn debit(&mut self, account: AccountId, amount: u128) -> (outcome: Result<(), PSP22Error>)
        ensures
            match outcome {
                Ok(()) => {
                    &&& old(self).spec_balance_of(account) >= amount
                    &&& final(self)@ == old(self)@.insert(
                        account,
                        (old(self).spec_balance_of(account) - amount) as u128,
                    )
                    &&& final(self).spec_sum() == old(self).spec_sum() - amount
                },
                Err(error) => {
                    &&& error == PSP22Error::InsufficientBalance
                    &&& old(self).spec_balance_of(account) < amount
                    &&& *final(self) == *old(self)
                },
            },
    {
        let balance = self.balance_of(account);
        if balance < amount {
            return Err(PSP22Error::InsufficientBalance);
        }
        proof {
            self.lemma_finite();
            lemma_sum_insert(self@, account, (balance - amount) as u128);
        }
        self.table.insert(account, balance - amount);
        Ok(())
    }

    /// Adds `amount` to what `account` holds, or refuses and changes nothing
    /// where the new balance would leave the range.
    pub fn credit(&mut self, account: AccountId, amount: u128) -> (outcome: Result<(), PSP22Error>)
        ensures
            match outcome {
                Ok(()) => {
                    &&& old(self).spec_balance_of(account) + amount <= u128::MAX
                    &&& final(self)@ == old(self)@.insert(
                        account,
                        (old(self).spec_balance_of(account) + amount) as u128,
                    )
                    &&& final(self).spec_sum() == old(self).spec_sum() + amount
                },
                Err(error) => {
                    &&& error == PSP22Error::Overflow
                    &&& old(self).spec_balance_of(account) + amount > u128::MAX
                    &&& *final(self) == *old(self)
                },
            },
    {
        let balance = self.balance_of(account);
        if amount > u128::MAX - balance {
            return Err(PSP22Error::Overflow);
        }
        proof {
            self.lemma_finite();
            lemma_sum_insert(self@, account, (balance + amount) as u128);
        }
        self.table.insert(account, balance + amount);
        Ok(())
    }
}

/// The balances together with the total supply.
///
/// Every value of this type is conserved: its supply is the sum over all
/// accounts of what they hold. Minting and burning move both together, and
/// a transfer moves neither the supply nor the sum.
pub struct BalanceLedger {
    balances: Balances,
    total_supply: u128,
}

impl View for BalanceLedger {
    type V = Map<AccountId, u128>;

    /// The balances that are recorded. An account without an entry holds nothing.
    closed spec fn view(&self) -> Map<AccountId, u128> {
        self.balances@
    }
}

impl BalanceLedger {
    /// The total supply.
    pub closed spec fn spec_total_supply(&self) -> u128 {
        self.total_supply
    }

    /// What `account` holds.
    pub open spec fn spec_balance_of(&self, account: AccountId) -> u128 {
        balance_in(self@, account)
    }

    /// The supply is the sum over all accounts of what they hold, and only
    /// finitely many accounts have an entry.
    #[verifier::type_invariant]
    pub open spec fn is_conserved(&self) -> bool {
        &&& self@.dom().finite()
        &&& self.spec_total_supply() == sum_of_balances(self@)
    }

    /// The ledger without any supply.
    pub fn new() -> (ledger: Self)
        ensures
            ledger@ == Map::<AccountId, u128>::empty(),
            ledger.spec_total_supply() == 0,
            ledger.is_conserved(),
    {
        BalanceLedger { balances: Balances::new(), total_supply: 0 }
    }

    /// Takes the ledger apart into one entry for each account that has one,
    /// in no particular order. The balances in them add up to the supply.
    pub fn into_entries(self) -> (entries: Vec<Entry<AccountId, u128>>)
        ensures
            is_listing(entries@, self@),
    {
        let BalanceLedger { balances, total_supply: _ } = self;
        balances.into_entries()
    }

    /// The total supply, which is the sum over all accounts of what they hold.
    pub fn total_supply(&self) -> (supply: u128)
        ensures
            supply == self.spec_total_supply(),
            supply == sum_of_balances(self@),
    {
        proof {
            use_type_invariant(self);
        }
        self.total_supply
    }

    /// What `account` holds: zero for an account that was never credited.
    pub fn balance_of(&self, account: AccountId) -> (balance: u128)
        ensures
            balance == self.spec_balance_of(account),
            balance <= self.spec_total_supply(),
    {
        proof {
            use_type_invariant(self);
            lemma_balance_within_sum(self@, account);
        }
        self.balances.balance_of(account)
    }

    /// Creates `amount` new units for `account`: its balance and the supply
    /// both grow by `amount`. Refuses and changes nothing where the supply
    /// would leave the range.
    pub fn mint(&mut self, account: AccountId, amount: u128) -> (outcome: Result<(), PSP22Error>)
        ensures
            final(self).is_conserved(),
            match outcome {
                Ok(()) => {
                    &&& old(self).spec_total_supply() + amount <= u128::MAX
                    &&& final(self).spec_total_supply() == old(self).spec_total_supply() + amount
                    &&& final(self)@ == old(self)@.insert(
                        account,
                        (old(self).spec_balance_of(account) + amount) as u128,
                    )
                },
                Err(error) => {
                    &&& error == PSP22Error::Overflow
                    &&& old(self).spec_total_supply() + amount > u128::MAX
                    &&& *final(self) == *old(self)
                },
            },
    {
        proof {
            use_type_invariant(&*self);
            lemma_balance_within_sum(self@, account);
        }
        if amount > u128::MAX - self.total_supply {
            return Err(PSP22Error::Overflow);
        }
        let (mut balances, total_supply) = self.take_parts();
        let credited = balances.credit(account, amount);
        assert(credited.is_ok());
        *self = BalanceLedger { balances, total_supply: total_supply + amount };
        Ok(())
    }

    /// Moves `amount` from `from` to `to`, or refuses and changes nothing
    /// where `from` holds less. The supply stays as it is.
    pub fn transfer(
        &mut self,
        from: AccountId,
        to: AccountId,
        amount: u128,
    ) -> (outcome: Result<(), PSP22Error>)
        ensures
            final(self).is_conserved(),
            match outcome {
                Ok(()) => {
                    &&& old(self).spec_balance_of(from) >= amount
                    &&& final(self).spec_total_supply() == old(self).spec_total_supply()
                    &&& final(self)@ == balances_after_transfer(old(self)@, from, to, amount)
                    &&& forall|account: AccountId|
                        #[trigger] final(self).spec_balance_of(account) == balance_after_transfer(
                            old(self).spec_balance_of(account),
                            account,
                            from,
                            to,
                            amount,
                        )
                },
                Err(error) => {
                    &&& error == PSP22Error::InsufficientBalance
                    &&& old(self).spec_balance_of(from) < amount
                    &&& *final(self) == *old(self)
                },
            },
    {
        proof {
            use_type_invariant(&*self);
        }
        if self.balances.balance_of(from) < amount {
            return Err(PSP22Error::InsufficientBalance);
        }
        proof {
            lemma_transfer_conserves_sum(self@, from, to, amount);
        }
        let (mut balances, total_supply) = self.take_parts();
        let debited = balances.debit(from, amount);
        proof {
            balances.lemma_finite();
            lemma_balance_within_sum(balances@, to);
        }
        let credited = balances.credit(to, amount);
        assert(debited.is_ok() && credited.is_ok());
        *self = BalanceLedger { balances, total_supply };
        Ok(())
    }

    /// Destroys `amount` units that `account` holds: its balance and the
    /// supply both fall by `amount`. Refuses and changes nothing, the supply
    /// included, where the account holds less.
    pub fn burn(&mut self, account: AccountId, amount: u128) -> (outcome: Result<(), PSP22Error>)
        ensures
            final(self).is_conserved(),
            match outcome {
                Ok(()) => {
                    &&& old(self).spec_balance_of(account) >= amount
                    &&& final(self).spec_total_supply() == old(self).spec_total_supply() - amount
                    &&& final(self)@ == old(self)@.insert(
                        account,
                        (old(self).spec_balance_of(account) - amount) as u128,
                    )
                },
                Err(error) => {
                    &&& error == PSP22Error::InsufficientBalance
                    &&& old(self).spec_balance_of(account) < amount
                    &&& *final(self) == *old(self)
                },
            },
    {
        proof {
            use_type_invariant(&*self);
            lemma_balance_within_sum(self@, account);
        }
        if self.balances.balance_of(account) < amount {
            return Err(PSP22Error::InsufficientBalance);
        }
        let (mut balances, total_supply) = self.take_parts();
        let debited = balances.debit(account, amount);
        assert(debited.is_ok());
        *self = BalanceLedger { balances, total_supply: total_supply - amount };
        Ok(())
    }

    /// Moves the balances and the supply out, leaving the empty ledger behind.
    fn take_parts(&mut self) -> (parts: (Balances, u128))
        ensures
            parts.0 == old(self).balances,
            parts.1 == old(self).total_supply,
    {
        let mut taken = BalanceLedger::new();
        core::mem::swap(&mut taken, self);
        let BalanceLedger { balances, total_supply } = taken;
        (balances, total_supply)
    }
}

} // verus!
