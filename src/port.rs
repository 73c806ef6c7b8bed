//! The storage port: what the use cases need from wherever accounts are kept.

use vstd::prelude::*;

use crate::bank_account::{AccountView, BankAccount};

verus! {

/// The stored accounts after `account` is saved: the entry under its number
/// is replaced whole, or added where there was none.
pub open spec fn saved(
    accounts: Map<Seq<char>, AccountView>,
    account: AccountView,
) -> Map<Seq<char>, AccountView> {
    accounts.insert(account.account_number, account)
}

/// Saving the same snapshot twice leaves the store as saving it once, and a
/// load then returns that snapshot.
pub proof fn lemma_save_idempotent(accounts: Map<Seq<char>, AccountView>, account: AccountView)
    ensures
        saved(saved(accounts, account), account) == saved(accounts, account),
        saved(accounts, account).contains_key(account.account_number),
        saved(accounts, account)[account.account_number] == account,
{
    assert(saved(saved(accounts, account), account) =~= saved(accounts, account));
}

/// Saving a snapshot under a number that already has one replaces the earlier
/// snapshot whole: the store is as if the earlier one had never been saved,
/// and a load returns the later snapshot, with none of the earlier history.
pub proof fn lemma_save_overwrites(
    accounts: Map<Seq<char>, AccountView>,
    earlier: AccountView,
    later: AccountView,
)
    requires
        earlier.account_number == later.account_number,
    ensures
        saved(saved(accounts, earlier), later) == saved(accounts, later),
        saved(saved(accounts, earlier), later)[later.account_number] == later,
{
    assert(saved(saved(accounts, earlier), later) =~= saved(accounts, later));
}

/// A store of account snapshots, keyed by account number.
///
/// Saving takes `&mut self`: a store is changed by one caller at a time, and
/// whoever shares one between threads holds it behind a lock for the whole
/// load, change and save of an operation.
pub trait BankAccountPort {
    /// The stored snapshots, by account number.
    spec fn accounts(&self) -> Map<Seq<char>, AccountView>;

    /// Stores a copy of `bank_account` under its number, replacing whatever
    /// was stored there.
    fn save_account(&mut self, bank_account: &BankAccount)
        ensures
            final(self).accounts() == saved(old(self).accounts(), bank_account@),
    ;

    /// A copy of the snapshot stored under `account_number`, or `None` where
    /// there is none. A snapshot is stored under its own number.
    fn load(&self, account_number: &str) -> (r: Option<BankAccount>)
        ensures
            match r {
                Some(a) => {
                    &&& self.accounts().contains_key(account_number@)
                    &&& a@ == self.accounts()[account_number@]
                    &&& a@.account_number == account_number@
                },
                None => !self.accounts().contains_key(account_number@),
            },
    ;
}

} // verus!
