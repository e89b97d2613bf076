//! The transfer history: for each account the transfers it took part in,
//! oldest first, bounded to the most recent ones, and read by page.

use vstd::prelude::*;
use crate::account::AccountId;
use crate::table::is_listing;
use crate::table::Entry;
use crate::table::Table;

verus! {

/// The most records that are kept for one account.
pub const MAX_HISTORY_SIZE: usize = 100;

/// One transfer as it is remembered.
#[derive(Debug, Clone, Copy, PartialEq, Eq)]
pub struct TransferRecord {
    pub from: AccountId,
    pub to: AccountId,
    pub value: u128,
    pub timestamp: u64,
}

/// A history after `record` has been appended to `records`: where the
/// history is full, its oldest record leaves first.
pub open spec fn append_bounded(
    records: Seq<TransferRecord>,
    record: TransferRecord,
) -> Seq<TransferRecord> {
    if records.len() >= MAX_HISTORY_SIZE {
        records.drop_first().push(record)
    } else {
        records.push(record)
    }
}

/// The history of `account` after `record` has been remembered, where it
/// was `records` before: the record is appended for its sender and for its
/// recipient, once for an account that is both, and for nobody else.
pub open spec fn history_after(
    records: Seq<TransferRecord>,
    account: AccountId,
    record: TransferRecord,
) -> Seq<TransferRecord> {
    if account == record.from || account == record.to {
        append_bounded(records, record)
    } else {
        records
    }
}

/// The history of `account` in `histories`: an account without an entry
/// took part in no transfer.
pub open spec fn history_in(
    histories: Map<AccountId, Seq<TransferRecord>>,
    account: AccountId,
) -> Seq<TransferRecord> {
    if histories.contains_key(account) {
        histories[account]
    } else {
        Seq::empty()
    }
}

/// The histories after `record` has been appended to that of `account`.
pub open spec fn histories_after_append(
    histories: Map<AccountId, Seq<TransferRecord>>,
    account: AccountId,
    record: TransferRecord,
) -> Map<AccountId, Seq<TransferRecord>> {
    histories.insert(account, append_bounded(history_in(histories, account), record))
}

/// The histories after `record` has been remembered: it is appended to the
/// history of its sender and to that of its recipient, once where the two
/// are one account.
pub open spec fn histories_after(
    histories: Map<AccountId, Seq<TransferRecord>>,
    record: TransferRecord,
) -> Map<AccountId, Seq<TransferRecord>> {
    let for_sender = histories_after_append(histories, record.from, record);
    if record.from == record.to {
        for_sender
    } else {
        histories_after_append(for_sender, record.to, record)
    }
}

/// Entries of records as entries of their views.
pub open spec fn entry_views(
    entries: Seq<Entry<AccountId, Vec<TransferRecord>>>,
) -> Seq<Entry<AccountId, Seq<TransferRecord>>> {
    entries.map_values(
        |entry: Entry<AccountId, Vec<TransferRecord>>| Entry { key: entry.key, value: entry.value@ },
    )
}

/// A history after each of `records` has been appended to `history` in turn.
pub open spec fn append_all(
    history: Seq<TransferRecord>,
    records: Seq<TransferRecord>,
) -> Seq<TransferRecord>
    decreases records.len(),
{
    if records.len() == 0 {
        history
    } else {
        append_bounded(append_all(history, records.drop_last()), records.last())
    }
}

/// The most recent records of `records`, as many as a history keeps.
pub open spec fn most_recent(records: Seq<TransferRecord>) -> Seq<TransferRecord> {
    if records.len() > MAX_HISTORY_SIZE {
        records.subrange(records.len() - MAX_HISTORY_SIZE, records.len() as int)
    } else {
        records
    }
}

/// The records of one page: pages are counted from 1 and hold `limit`
/// records each, in the order of the history. Page 0, a limit of 0 and a
/// page behind the end of the history are empty.
pub open spec fn page_of(
    records: Seq<TransferRecord>,
    page: nat,
    limit: nat,
) -> Seq<TransferRecord> {
    if page == 0 || limit == 0 {
        Seq::empty()
    } else {
        let start = (page - 1) * limit;
        if start >= records.len() {
            Seq::empty()
        } else {
            let end = if start + limit < records.len() {
                start + limit
            } else {
                records.len() as int
            };
            records.subrange(start, end)
        }
    }
}

/// A history that started empty holds the most recent of the records that
/// were appended to it: once more than the bound have been appended, it
/// holds exactly as many as the bound, and its oldest record is the one
/// that many places from the end.
pub proof fn lemma_retention(records: Seq<TransferRecord>)
    ensures
        append_all(Seq::empty(), records) == most_recent(records),
        records.len() > MAX_HISTORY_SIZE ==> {
            &&& append_all(Seq::empty(), records).len() == MAX_HISTORY_SIZE
            &&& append_all(Seq::empty(), records)[0] == records[records.len() - MAX_HISTORY_SIZE]
        },
    decreases records.len(),
{
    if records.len() > 0 {
        lemma_retention(records.drop_last());
    }
}

/// Appending keeps a history within the bound.
pub proof fn lemma_append_bounded_len(records: Seq<TransferRecord>, record: TransferRecord)
    requires
        records.len() <= MAX_HISTORY_SIZE,
    ensures
        append_bounded(records, record).len() <= MAX_HISTORY_SIZE,
        append_bounded(records, record).len() == if records.len() == MAX_HISTORY_SIZE {
            records.len()
        } else {
            records.len() + 1
        },
        append_bounded(records, record).last() == record,
{
}

/// Remembering a record changes the history of each account as
/// `history_after` says.
pub proof fn lemma_histories_after(
    histories: Map<AccountId, Seq<TransferRecord>>,
    record: TransferRecord,
    account: AccountId,
)
    ensures
        history_in(histories_after(histories, record), account) == history_after(
            history_in(histories, account),
            account,
            record,
        ),
{
}

/// A page that is asked for with page 0 or with a limit of 0 is empty.
pub proof fn lemma_page_zero_is_empty(records: Seq<TransferRecord>, n: nat)
    ensures
        page_of(records, 0, n) == Seq::<TransferRecord>::empty(),
        page_of(records, n, 0) == Seq::<TransferRecord>::empty(),
{
}

/// The pages of one limit follow each other through the history: the record
/// at place `k` of page `page` is the record at place `(page - 1) * limit + k`
/// of the history, and a page holds at most `limit` records.
pub proof fn lemma_page_contents(records: Seq<TransferRecord>, page: nat, limit: nat, k: int)
    requires
        0 <= k < page_of(records, page, limit).len(),
    ensures
        page >= 1,
        k < limit,
        (page - 1) * limit + k < records.len(),
        page_of(records, page, limit)[k] == records[(page - 1) * limit + k],
{
}

/// Every record of a history stands on one page: with `limit` records to a
/// page, the record at place `i` is the record at place `i % limit` of page
/// `i / limit + 1`.
pub proof fn lemma_record_on_page(records: Seq<TransferRecord>, limit: nat, i: int)
    requires
        limit > 0,
        0 <= i < records.len(),
    ensures
        0 <= i % (limit as int) < page_of(records, (i / (limit as int) + 1) as nat, limit).len(),
        page_of(records, (i / (limit as int) + 1) as nat, limit)[i % (limit as int)] == records[i],
{
    let per_page = limit as int;
    let pages_before = i / per_page;
    vstd::arithmetic::div_mod::lemma_fundamental_div_mod(i, per_page);
    vstd::arithmetic::div_mod::lemma_div_pos_is_pos(i, per_page);
    vstd::arithmetic::div_mod::lemma_mod_bound(i, per_page);
    assert(pages_before * per_page == per_page * pages_before) by (nonlinear_arith);
}

/// The histories that a table of records stands for.
spec fn histories_of(
    table: Map<AccountId, Vec<TransferRecord>>,
) -> Map<AccountId, Seq<TransferRecord>> {
    table.map_values(|records: Vec<TransferRecord>| records@)
}

/// The transfer history of every account.
///
/// Every value of this type is bounded: an account that has a history has
/// at least one record and no more than `MAX_HISTORY_SIZE`.
pub struct TransferHistoryLog {
    table: Table<AccountId, Vec<TransferRecord>>,
}

impl View for TransferHistoryLog {
    type V = Map<AccountId, Seq<TransferRecord>>;

    /// The history of each account that has one, oldest record first.
    closed spec fn view(&self) -> Map<AccountId, Seq<TransferRecord>> {
        histories_of(self.table@)
    }
}

impl TransferHistoryLog {
    /// The records that are kept for `account`, oldest first. An account
    /// that took part in no transfer has none.
    pub open spec fn spec_history(&self, account: AccountId) -> Seq<TransferRecord> {
        history_in(self@, account)
    }

    /// Every history that is kept has at least one record and no more than
    /// the bound.
    #[verifier::type_invariant]
    pub open spec fn is_bounded(&self) -> bool {
        forall|account: AccountId| #[trigger]
            self@.contains_key(account) ==> 0 < self@[account].len() <= MAX_HISTORY_SIZE
    }

    /// The log without any record.
    pub fn new() -> (log: Self)
        ensures
            log.is_bounded(),
            log@ == Map::<AccountId, Seq<TransferRecord>>::empty(),
    {
        TransferHistoryLog { table: Table::new() }
    }

    /// Takes the log apart into one entry for each account that has a
    /// history, in no particular order: each holds the account's records,
    /// oldest first.
    pub fn into_entries(self) -> (entries: Vec<Entry<AccountId, Vec<TransferRecord>>>)
        ensures
            is_listing(entry_views(entries@), self@),
            forall|i: int|
                0 <= i < entries@.len() ==> 0 < (#[trigger] entries@[i]).value@.len()
                    <= MAX_HISTORY_SIZE,
    {
        proof {
            use_type_invariant(&self);
        }
        let ghost log = self;
        let TransferHistoryLog { table } = self;
        let entries = table.into_entries();
        proof {
            let views = entry_views(entries@);
            assert forall|i: int| 0 <= i < views.len() implies
                log@.contains_key((#[trigger] views[i]).key)
                && log@[views[i].key] == views[i].value by {}
            assert forall|i: int| 0 <= i < entries@.len() implies
                0 < (#[trigger] entries@[i]).value@.len() <= MAX_HISTORY_SIZE by {
                assert(views[i].value == entries@[i].value@);
            }
            assert forall|account: AccountId| #[trigger] log@.contains_key(account) implies
                exists|i: int| 0 <= i < views.len() && (#[trigger] views[i]).key == account by {
                let i = choose|i: int|
                    0 <= i < entries@.len() && (#[trigger] entries@[i]).key == account;
                assert(views[i].key == account);
            }
        }
        entries
    }

    /// Appends `record` to the history of `account` alone, after the oldest
    /// record has left where that history is full.
    pub fn append(&mut self, account: AccountId, record: TransferRecord)
        ensures
            final(self).is_bounded(),
            final(self)@ == histories_after_append(old(self)@, account, record),
    {
        proof {
            use_type_invariant(&*self);
        }
        let ghost before = *self;
        let mut table: Table<AccountId, Vec<TransferRecord>> = Table::new();
        core::mem::swap(&mut table, &mut self.table);
        let mut records = match table.remove(&account) {
            Some(records) => records,
            None => Vec::new(),
        };
        push_bounded(&mut records, record);
        table.insert(account, records);
        proof {
            let after = histories_of(table@);
            assert forall|other: AccountId| #[trigger] after.contains_key(other) implies
                0 < after[other].len() <= MAX_HISTORY_SIZE by {
                if other != account {
                    assert(before@.contains_key(other));
                }
            }
        }
        self.table = table;
    }

    /// Remembers a transfer of `value` from `from` to `to` at `timestamp`, in
    /// the history of the sender and in that of the recipient. A transfer
    /// from an account to itself is remembered once.
    pub fn record(&mut self, from: AccountId, to: AccountId, value: u128, timestamp: u64)
        ensures
            final(self).is_bounded(),
            final(self)@ == histories_after(
                old(self)@,
                (TransferRecord { from, to, value, timestamp }),
            ),
            forall|account: AccountId| #[trigger]
                final(self).spec_history(account) == history_after(
                    old(self).spec_history(account),
                    account,
                    (TransferRecord { from, to, value, timestamp }),
                ),
    {
        let record = TransferRecord { from, to, value, timestamp };
        self.append(from, record);
        if !(from == to) {
            self.append(to, record);
        }
        proof {
            use_type_invariant(&*self);
        }
    }

    /// The page `page` of the history of `account`, with `limit` records to
    /// a page. Reading changes nothing, so the same question has the same
    /// answer until the next transfer is recorded.
    pub fn query(&self, account: AccountId, page: u32, limit: u32) -> (records: Vec<TransferRecord>)
        ensures
            records@ == page_of(self.spec_history(account), page as nat, limit as nat),
    {
        match self.table.get(&account) {
            Some(kept) => take_page(kept, page, limit),
            None => Vec::new(),
        }
    }
}

/// Appends `record` to `records`, after the oldest record has left where
/// there are as many as a history keeps.
pub fn push_bounded(records: &mut Vec<TransferRecord>, record: TransferRecord)
    ensures
        final(records)@ == append_bounded(old(records)@, record),
{
    if records.len() >= MAX_HISTORY_SIZE {
        records.remove(0);
    }
    records.push(record);
}

/// The page `page` of `records`, with `limit` records to a page: pages are
/// counted from 1, and page 0, a limit of 0 and a page behind the end are
/// empty. No product of a page and a limit is too large.
pub fn take_page(records: &Vec<TransferRecord>, page: u32, limit: u32) -> (taken: Vec<TransferRecord>)
    ensures
        taken@ == page_of(records@, page as nat, limit as nat),
{
    let mut taken: Vec<TransferRecord> = Vec::new();
    if page == 0 || limit == 0 {
        return taken;
    }
    let length: usize = records.len();
    let start: u64 = page_start(page, limit);
    if start >= length as u64 {
        return taken;
    }
    let start: usize = start as usize;
    let room: usize = length - start;
    let end: usize = if (limit as u64) < room as u64 {
        start + limit as usize
    } else {
        length
    };
    let mut i: usize = start;
    while i < end
        invariant
            start <= i <= end <= records@.len(),
            taken@ == records@.subrange(start as int, i as int),
        decreases end - i,
    {
        taken.push(records[i]);
        i += 1;
    }
    taken
}

/// The place in a history at which page `page` starts, for a page that is
/// not page 0.
fn page_start(page: u32, limit: u32) -> (start: u64)
    requires
        page >= 1,
    ensures
        start == (page - 1) * limit,
{
    let pages_before: u64 = (page - 1) as u64;
    let per_page: u64 = limit as u64;
    assert(pages_before * per_page <= 0xFFFF_FFFF * 0xFFFF_FFFF) by (nonlinear_arith)
        requires
            pages_before <= 0xFFFF_FFFF,
            per_page <= 0xFFFF_FFFF,
    ;
    pages_before * per_page
}

} // verus!
