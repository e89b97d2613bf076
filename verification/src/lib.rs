//! Accounting core of a fungible-token ledger: balances with a conserved
//! total supply, spending allowances, and a bounded per-account transfer
//! history that is read by page.
//!
//! The token in `token` composes three parts: the balances with the supply
//! (`balances`), the allowances (`allowances`) and the transfer history
//! (`history`). Each keeps its map in a `table`. Operations report refusals
//! as values of `PSP22Error` and change nothing when they refuse. What the
//! operations do is said by the state machine in `model`, which also shows
//! that the supply stays the sum of all balances in every state that can
//! be reached.

pub mod account;
pub mod allowances;
pub mod balances;
pub mod error;
pub mod events;
pub mod history;
pub mod metadata;
pub mod model;
pub mod table;
pub mod token;

pub use account::AccountId;
pub use allowances::AllowanceRegistry;
pub use balances::BalanceLedger;
pub use balances::Balances;
pub use error::PSP22Error;
pub use events::Approval;
pub use events::Transfer;
pub use history::TransferHistoryLog;
pub use history::TransferRecord;
pub use history::MAX_HISTORY_SIZE;
pub use metadata::TokenMetadata;
pub use model::Call;
pub use model::LedgerState;
pub use token::CallContext;
pub use token::PidChatPSP22;
pub use token::Psp22;
