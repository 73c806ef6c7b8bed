//! The values exchanged with clients: what a request carries and what an
//! account looks like in a reply.

use vstd::prelude::*;

use crate::bank_account::BankAccount;

verus! {

/// A request to open an account.
#[derive(Debug, PartialEq, Eq)]
pub struct BankAccountInput {
    pub initial_amount: i64,
    pub account_id: String,
}

/// A request to deposit or withdraw an amount.
#[derive(Clone, Copy, Debug, PartialEq, Eq, Structural)]
pub struct DepositAndWithdrawInput {
    pub amount: i64,
}

/// An account as shown to a client: its number, opening amount and balance.
#[derive(Debug, PartialEq, Eq)]
pub struct BankAccountResource {
    pub initial_amount: i64,
    pub account_id: String,
    pub balance: i64,
}

/// How `account` is shown to a client; `None` where its balance does not fit
/// in an `i64`.
pub fn to_resource(account: &BankAccount) -> (r: Option<BankAccountResource>)
    ensures
        match r {
            Some(res) => {
                &&& account@.balance_fits()
                &&& res.account_id@ == account@.account_number
                &&& res.initial_amount == account@.initial_amount
                &&& res.balance == account@.balance()
            },
            None => !account@.balance_fits(),
        },
{
    match account.checked_balance() {
        Some(balance) => Some(
            BankAccountResource {
                initial_amount: account.initial_amount(),
                account_id: account.account_number().clone(),
                balance,
            },
        ),
        None => None,
    }
}

} // verus!
