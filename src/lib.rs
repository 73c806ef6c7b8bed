//! A small bank-account ledger: accounts with an opening amount and an
//! append-only history of deposits and withdrawals, a storage port with an
//! in-memory adapter, and the use cases that load, change and store accounts.

pub mod bank_account;
pub mod clock;
pub mod port;
pub mod repository;
pub mod use_case;
pub mod resource;

pub use bank_account::{BankAccount, Transaction};
pub use clock::Timestamp;
pub use port::BankAccountPort;
pub use repository::BankAccountAdapter;
pub use resource::{to_resource, BankAccountInput, BankAccountResource, DepositAndWithdrawInput};
pub use use_case::BankAccountUseCase;
