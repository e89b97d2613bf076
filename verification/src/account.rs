//! Account identities.

use vstd::prelude::*;
use crate::table::Key;

verus! {

/// Number of bytes in an account identifier.
pub const ACCOUNT_ID_LEN: usize = 32;

/// An account: a fixed-size identifier that the ledger only compares and
/// uses as a key. Nothing inside it is interpreted.
#[derive(Debug, Clone, Copy)]
pub struct AccountId {
    bytes: [u8; ACCOUNT_ID_LEN],
}

impl View for AccountId {
    type V = Seq<u8>;

    /// The identifier's bytes, in order.
    closed spec fn view(&self) -> Seq<u8> {
        self.bytes@
    }
}

impl AccountId {
    /// The account with the given identifier bytes.
    pub fn from_bytes(bytes: [u8; ACCOUNT_ID_LEN]) -> (id: Self)
        ensures
            id@ == bytes@,
    {
        AccountId { bytes }
    }

    /// The identifier bytes of this account.
    pub fn to_bytes(&self) -> (bytes: [u8; ACCOUNT_ID_LEN])
        ensures
            bytes@ == self@,
    {
        self.bytes
    }

    /// Two accounts with the same bytes are the same account.
    pub proof fn lemma_view_injective(a: AccountId, b: AccountId)
        ensures
            a@.len() == ACCOUNT_ID_LEN,
            (a@ == b@) <==> (a == b),
    {
        if a@ == b@ {
            assert(a.bytes =~= b.bytes);
        }
    }
}

impl PartialEq for AccountId {
    fn eq(&self, other: &Self) -> (equal: bool) {
        let mut i: usize = 0;
        while i < ACCOUNT_ID_LEN
            invariant
                i <= ACCOUNT_ID_LEN,
                forall|j: int| 0 <= j < i ==> self.bytes[j] == other.bytes[j],
            decreases ACCOUNT_ID_LEN - i,
        {
            if self.bytes[i] != other.bytes[i] {
                return false;
            }
            i += 1;
        }
        proof {
            assert(self.bytes =~= other.bytes);
        }
        true
    }
}

impl Eq for AccountId {}

impl vstd::std_specs::cmp::PartialEqSpecImpl for AccountId {
    open spec fn obeys_eq_spec() -> bool {
        true
    }

    open spec fn eq_spec(&self, other: &Self) -> bool {
        *self == *other
    }
}

impl Key for AccountId {
    fn same(&self, other: &Self) -> (equal: bool) {
        *self == *other
    }
}

} // verus!
