//! The in-memory store.

use vstd::prelude::*;

use crate::bank_account::{AccountView, BankAccount};
use crate::port::{saved, BankAccountPort};

verus! {

/// Each account in `accounts` is stored under its own number in `store`, no
/// number is held twice, and every number in `store` is held.
spec fn consistent(accounts: Seq<BankAccount>, store: Map<Seq<char>, AccountView>) -> bool {
    &&& forall|i: int|
        0 <= i < accounts.len() ==> {
            &&& store.contains_key(#[trigger] accounts[i]@.account_number)
            &&& store[accounts[i]@.account_number] == accounts[i]@
        }
    &&& forall|i: int, j: int|
        0 <= i < j < accounts.len() ==> #[trigger] accounts[i]@.account_number
            != #[trigger] accounts[j]@.account_number
    &&& forall|k: Seq<char>|
        #[trigger] store.contains_key(k) ==> exists|i: int|
            0 <= i < accounts.len() && #[trigger] accounts[i]@.account_number == k
}

/// Keeps account snapshots in memory, one per account number.
pub struct BankAccountAdapter {
    accounts: Vec<BankAccount>,
    store: Ghost<Map<Seq<char>, AccountView>>,
}

impl BankAccountAdapter {
    #[verifier::type_invariant]
    spec fn well_formed(self) -> bool {
        consistent(self.accounts@, self.store@)
    }

    /// An empty store.
    pub fn new() -> (r: Self)
        ensures
            r.accounts() == Map::<Seq<char>, AccountView>::empty(),
    {
        BankAccountAdapter { accounts: Vec::new(), store: Ghost(Map::empty()) }
    }

    /// Where the account numbered `key` is held, if it is.
    fn position(&self, key: &String) -> (r: Option<usize>)
        ensures
            match r {
                Some(i) => i < self.accounts@.len() && self.accounts@[i as int]@.account_number
                    == key@,
                None => forall|i: int|
                    0 <= i < self.accounts@.len() ==> self.accounts@[i]@.account_number != key@,
            },
    {
        let mut i: usize = 0;
        while i < self.accounts.len()
            invariant
                0 <= i <= self.accounts@.len(),
                forall|j: int| 0 <= j < i ==> self.accounts@[j]@.account_number != key@,
            decreases self.accounts@.len() - i,
        {
            if *self.accounts[i].account_number() == *key {
                return Some(i);
            }
            i = i + 1;
        }
        None
    }
}

impl BankAccountPort for BankAccountAdapter {
    closed spec fn accounts(&self) -> Map<Seq<char>, AccountView> {
        self.store@
    }

    fn save_account(&mut self, bank_account: &BankAccount) {
        let copy = bank_account.clone();
        let key = bank_account.account_number();
        let found = self.position(key);
        let mut taken = BankAccountAdapter::new();
        std::mem::swap(self, &mut taken);
        proof {
            use_type_invariant(&taken);
        }
        let BankAccountAdapter { mut accounts, store } = taken;
        let ghost old_accounts = accounts@;
        match found {
            Some(i) => {
                accounts.set(i, copy);
            },
            None => {
                accounts.push(copy);
            },
        }
        let ghost new_store = saved(store@, bank_account@);
        proof {
            assert forall|i: int| 0 <= i < accounts@.len() implies {
                &&& new_store.contains_key(#[trigger] accounts@[i]@.account_number)
                &&& new_store[accounts@[i]@.account_number] == accounts@[i]@
            } by {
                let fresh = match found {
                    Some(f) => i == f,
                    None => i == old_accounts.len(),
                };
                if fresh {
                    assert(accounts@[i]@ == bank_account@);
                } else {
                    assert(old_accounts[i] == accounts@[i]);
                    if let Some(f) = found {
                        assert(old_accounts[f as int]@.account_number == key@);
                    }
                    assert(old_accounts[i]@.account_number != key@);
                }
            }
            assert forall|i: int, j: int|
                0 <= i < j < accounts@.len() implies #[trigger] accounts@[i]@.account_number
                != #[trigger] accounts@[j]@.account_number by {
                if found is None && j == old_accounts.len() {
                    assert(old_accounts[i]@.account_number != key@);
                }
            }
            assert forall|k: Seq<char>| #[trigger] new_store.contains_key(k) implies exists|i: int|
                0 <= i < accounts@.len() && #[trigger] accounts@[i]@.account_number == k by {
                if k == key@ {
                    match found {
                        Some(i) => assert(accounts@[i as int]@.account_number == k),
                        None => assert(accounts@[old_accounts.len() as int]@.account_number == k),
                    }
                } else {
                    assert(store@.contains_key(k));
                    let i = choose|i: int|
                        0 <= i < old_accounts.len() && #[trigger] old_accounts[i]@.account_number == k;
                    assert(accounts@[i]@.account_number == k);
                }
            }
        }
        *self = BankAccountAdapter { accounts, store: Ghost(new_store) };
    }

    fn load(&self, account_number: &str) -> (r: Option<BankAccount>) {
        proof {
            use_type_invariant(self);
        }
        let key = account_number.to_owned();
        match self.position(&key) {
            Some(i) => Some(self.accounts[i].clone()),
            None => {
                proof {
                    if self.store@.contains_key(key@) {
                        let i = choose|i: int|
                            0 <= i < self.accounts@.len() && #[trigger] self.accounts@[i]@.account_number == key@;
                        assert(self.accounts@[i]@.account_number != key@);
                    }
                }
                None
            },
        }
    }
}

} // verus!
