//! The ways in which a ledger operation can be refused.

use vstd::prelude::*;

verus! {

/// Why an operation was refused. Every refusal leaves the ledger as it was.
#[derive(Debug, Clone, Copy, PartialEq, Eq, Structural)]
pub enum PSP22Error {
    TransferFailed,
    TransferFromFailed,
    ApproveFailed,
    IncreaseAllowanceFailed,
    DecreaseAllowanceFailed,
    BalanceNoAllocated,
    /// A debit or burn asked for more than the account holds.
    InsufficientBalance,
    /// A delegated transfer or a decrease asked for more than the recorded allowance.
    InsufficientAllowance,
    /// An addition would leave the range of a balance.
    Overflow,
}

impl PSP22Error {
    /// Rebuilds an error from an error of the same kind: the variant is kept.
    pub fn from_error(error: PSP22Error) -> (converted: Self)
        ensures
            converted == error,
    {
        match error {
            PSP22Error::TransferFailed => Self::TransferFailed,
            PSP22Error::TransferFromFailed => Self::TransferFromFailed,
            PSP22Error::ApproveFailed => Self::ApproveFailed,
            PSP22Error::IncreaseAllowanceFailed => Self::IncreaseAllowanceFailed,
            PSP22Error::DecreaseAllowanceFailed => Self::DecreaseAllowanceFailed,
            PSP22Error::BalanceNoAllocated => Self::BalanceNoAllocated,
            PSP22Error::InsufficientBalance => Self::InsufficientBalance,
            PSP22Error::InsufficientAllowance => Self::InsufficientAllowance,
            PSP22Error::Overflow => Self::Overflow,
        }
    }
}

} // verus!
