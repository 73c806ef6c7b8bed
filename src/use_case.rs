//! The use cases: each one loads an account through the port, changes the
//! copy it got, and saves it back.

use vstd::prelude::*;

use crate::bank_account::{AccountView, BankAccount, Transaction};
use crate::clock::Timestamp;
use crate::port::{saved, BankAccountPort};

verus! {

/// Runs the account operations against a store.
///
/// The operations that change an account take `&mut self`, so a load, the
/// change and the save that follows happen as one step: no other change to
/// the store can come between them. A server that shares one use case between
/// requests keeps it behind a single lock, which serialises every change.
pub struct BankAccountUseCase<P: BankAccountPort> {
    bank_account_port: P,
}

impl<P: BankAccountPort> BankAccountUseCase<P> {
    /// The accounts in the store, by number.
    pub closed spec fn accounts(&self) -> Map<Seq<char>, AccountView> {
        self.bank_account_port.accounts()
    }

    pub fn new(adapter: P) -> (r: BankAccountUseCase<P>)
        ensures
            r.accounts() == adapter.accounts(),
    {
        BankAccountUseCase { bank_account_port: adapter }
    }

    /// Stores a new account with no transactions. An account already stored
    /// under the same number is replaced.
    pub fn create(&mut self, account_number: String, initial_amount: i64)
        ensures
            final(self).accounts() == saved(
                old(self).accounts(),
                AccountView { account_number: account_number@, initial_amount, transactions: Seq::empty() },
            ),
    {
        let account = BankAccount::create_new_account(account_number, initial_amount);
        self.bank_account_port.save_account(&account)
    }

    /// Records a withdrawal of `amount` on the stored account and returns the
    /// account as saved; `None`, with nothing changed, where no account has
    /// that number.
    pub fn withdraw(&mut self, account_number: String, amount: i64) -> (r: Option<BankAccount>)
        ensures
            match r {
                None => {
                    &&& !old(self).accounts().contains_key(account_number@)
                    &&& final(self).accounts() == old(self).accounts()
                },
                Some(a) => {
                    &&& old(self).accounts().contains_key(account_number@)
                    &&& exists|date: Timestamp|
                        a@ == old(self).accounts()[account_number@].record(
                            Transaction::Withdraw { amount, date },
                        )
                    &&& a@.account_number == account_number@
                    &&& final(self).accounts() == old(self).accounts().insert(account_number@, a@)
                },
            },
    {
        let mut account = match self.bank_account_port.load(account_number.as_str()) {
            Some(a) => a,
            None => return None,
        };
        account.with_draw(amount);
        self.bank_account_port.save_account(&account);
        Some(account)
    }

    /// Records a deposit of `amount` on the stored account and returns the
    /// account as saved; `None`, with nothing changed, where no account has
    /// that number.
    pub fn deposit(&mut self, account_number: String, amount: i64) -> (r: Option<BankAccount>)
        ensures
            match r {
                None => {
                    &&& !old(self).accounts().contains_key(account_number@)
                    &&& final(self).accounts() == old(self).accounts()
                },
                Some(a) => {
                    &&& old(self).accounts().contains_key(account_number@)
                    &&& exists|date: Timestamp|
                        a@ == old(self).accounts()[account_number@].record(
                            Transaction::Deposit { amount, date },
                        )
                    &&& a@.account_number == account_number@
                    &&& final(self).accounts() == old(self).accounts().insert(account_number@, a@)
                },
            },
    {
        let mut account = match self.bank_account_port.load(account_number.as_str()) {
            Some(a) => a,
            None => return None,
        };
        account.deposit(amount);
        self.bank_account_port.save_account(&account);
        Some(account)
    }

    /// A copy of the stored account, or `None` where no account has that
    /// number.
    pub fn fetch(&self, account_number: String) -> (r: Option<BankAccount>)
        ensures
            match r {
                None => !self.accounts().contains_key(account_number@),
                Some(a) => {
                    &&& self.accounts().contains_key(account_number@)
                    &&& a@ == self.accounts()[account_number@]
                    &&& a@.account_number == account_number@
                },
            },
    {
        self.bank_account_port.load(account_number.as_str())
    }
}

} // verus!
