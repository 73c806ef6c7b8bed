//! The ledger entity: an account and the transactions recorded on it.

use vstd::prelude::*;

use crate::clock::{now, Timestamp};

verus! {

/// One recorded change of an account: money paid in or taken out, with the
/// time at which it was recorded.
#[derive(Clone, Copy, Debug, PartialEq, Eq, Structural)]
pub enum Transaction {
    Deposit { amount: i64, date: Timestamp },
    Withdraw { amount: i64, date: Timestamp },
}

impl Transaction {
    /// What the transaction adds to the balance: `+amount` for a deposit,
    /// `-amount` for a withdrawal.
    pub open spec fn signed_amount(self) -> int {
        match self {
            Transaction::Deposit { amount, .. } => amount as int,
            Transaction::Withdraw { amount, .. } => -(amount as int),
        }
    }

    /// The signed amount; only a withdrawal of `i64::MIN` has none in `i64`.
    pub fn amount(&self) -> (r: i64)
        requires
            i64::MIN <= self.signed_amount() <= i64::MAX,
        ensures
            r == self.signed_amount(),
    {
        match self {
            Transaction::Deposit { amount, .. } => *amount,
            Transaction::Withdraw { amount, .. } => -*amount,
        }
    }

    /// The signed amount, widened so that every transaction has one.
    fn wide_amount(&self) -> (r: i128)
        ensures
            r == self.signed_amount(),
    {
        match self {
            Transaction::Deposit { amount, .. } => *amount as i128,
            Transaction::Withdraw { amount, .. } => -(*amount as i128),
        }
    }
}

/// The sum of the signed amounts of `txs`, taken from the first one on.
pub open spec fn sum_signed(txs: Seq<Transaction>) -> int
    decreases txs.len(),
{
    if txs.len() == 0 {
        0
    } else {
        sum_signed(txs.drop_last()) + txs.last().signed_amount()
    }
}

/// The amounts of the deposits in `txs`, in the order they were recorded.
pub open spec fn deposit_amounts(txs: Seq<Transaction>) -> Seq<int>
    decreases txs.len(),
{
    if txs.len() == 0 {
        Seq::empty()
    } else {
        let earlier = deposit_amounts(txs.drop_last());
        match txs.last() {
            Transaction::Deposit { amount, .. } => earlier.push(amount as int),
            Transaction::Withdraw { .. } => earlier,
        }
    }
}

/// The amounts of the withdrawals in `txs`, in the order they were recorded.
pub open spec fn withdraw_amounts(txs: Seq<Transaction>) -> Seq<int>
    decreases txs.len(),
{
    if txs.len() == 0 {
        Seq::empty()
    } else {
        let earlier = withdraw_amounts(txs.drop_last());
        match txs.last() {
            Transaction::Withdraw { amount, .. } => earlier.push(amount as int),
            Transaction::Deposit { .. } => earlier,
        }
    }
}

/// The sum of `xs`.
pub open spec fn total(xs: Seq<int>) -> int
    decreases xs.len(),
{
    if xs.len() == 0 {
        0
    } else {
        total(xs.drop_last()) + xs.last()
    }
}

proof fn lemma_total_concat(s1: Seq<int>, s2: Seq<int>)
    ensures
        total(s1 + s2) == total(s1) + total(s2),
    decreases s2.len(),
{
    if s2.len() == 0 {
        assert(s1 + s2 =~= s1);
    } else {
        assert((s1 + s2).drop_last() =~= s1 + s2.drop_last());
        lemma_total_concat(s1, s2.drop_last());
    }
}

proof fn lemma_total_remove(s: Seq<int>, i: int)
    requires
        0 <= i < s.len(),
    ensures
        total(s) == total(s.remove(i)) + s[i],
{
    let front = s.subrange(0, i);
    let back = s.subrange(i + 1, s.len() as int);
    let one = seq![s[i]];
    assert(s =~= front + (one + back));
    assert(s.remove(i) =~= front + back);
    assert(one.drop_last() =~= Seq::<int>::empty());
    assert(total(one) == total(one.drop_last()) + s[i]);
    lemma_total_concat(front, one + back);
    lemma_total_concat(one, back);
    lemma_total_concat(front, back);
}

/// The sum of a sequence of amounts does not depend on their order.
pub proof fn lemma_total_permutation(a: Seq<int>, b: Seq<int>)
    requires
        a.to_multiset() == b.to_multiset(),
    ensures
        total(a) == total(b),
    decreases a.len(),
{
    broadcast use vstd::seq_lib::group_to_multiset_ensures;

    if a.len() == 0 {
        assert(a.to_multiset().len() == 0);
        assert(b.to_multiset().len() == b.len());
        assert(b =~= Seq::<int>::empty());
    } else {
        let x = a.last();
        let rest = a.drop_last();
        assert(rest.push(x) =~= a);
        assert(b.to_multiset().count(x) > 0);
        assert(b.contains(x));
        let i = b.index_of(x);
        lemma_total_remove(b, i);
        assert(b.remove(i).to_multiset() =~= rest.to_multiset());
        lemma_total_permutation(rest, b.remove(i));
    }
}

proof fn lemma_sum_signed_split(txs: Seq<Transaction>)
    ensures
        sum_signed(txs) == total(deposit_amounts(txs)) - total(withdraw_amounts(txs)),
    decreases txs.len(),
{
    if txs.len() > 0 {
        let earlier = txs.drop_last();
        lemma_sum_signed_split(earlier);
        match txs.last() {
            Transaction::Deposit { amount, .. } => {
                let d = deposit_amounts(earlier).push(amount as int);
                assert(d.drop_last() =~= deposit_amounts(earlier));
            },
            Transaction::Withdraw { amount, .. } => {
                let w = withdraw_amounts(earlier).push(amount as int);
                assert(w.drop_last() =~= withdraw_amounts(earlier));
            },
        }
    }
}

/// Whatever the order in which deposits and withdrawals were recorded, the
/// balance is the opening amount plus the deposited amounts minus the
/// withdrawn amounts.
pub proof fn lemma_balance_fold(account: AccountView)
    ensures
        account.balance() == account.initial_amount + total(deposit_amounts(account.transactions))
            - total(withdraw_amounts(account.transactions)),
{
    lemma_sum_signed_split(account.transactions);
}

/// Two accounts with the same opening amount whose histories hold the same
/// deposited amounts and the same withdrawn amounts, each in any order and
/// whatever their dates, have the same balance.
pub proof fn lemma_balance_ignores_order(a: AccountView, b: AccountView)
    requires
        a.initial_amount == b.initial_amount,
        deposit_amounts(a.transactions).to_multiset() == deposit_amounts(
            b.transactions,
        ).to_multiset(),
        withdraw_amounts(a.transactions).to_multiset() == withdraw_amounts(
            b.transactions,
        ).to_multiset(),
    ensures
        a.balance() == b.balance(),
{
    lemma_balance_fold(a);
    lemma_balance_fold(b);
    lemma_total_permutation(deposit_amounts(a.transactions), deposit_amounts(b.transactions));
    lemma_total_permutation(withdraw_amounts(a.transactions), withdraw_amounts(b.transactions));
}

/// An account that starts with no history and then records `txs[0]`,
/// `txs[1]`, ... one call after another (`steps[i + 1]` is `steps[i]` with
/// `txs[i]` recorded) ends with exactly `txs` as its history, in call order.
pub proof fn lemma_history_in_call_order(steps: Seq<AccountView>, txs: Seq<Transaction>)
    requires
        steps.len() == txs.len() + 1,
        steps[0].transactions == Seq::<Transaction>::empty(),
        forall|i: int| 0 <= i < txs.len() ==> #[trigger] steps[i + 1] == steps[i].record(txs[i]),
    ensures
        steps.last().transactions == txs,
    decreases txs.len(),
{
    if txs.len() > 0 {
        let k = txs.len() - 1;
        lemma_history_in_call_order(steps.drop_last(), txs.drop_last());
        assert(steps[k + 1] == steps[k].record(txs[k]));
        assert(steps.drop_last().last() == steps[k]);
        assert(txs.drop_last().push(txs[k]) =~= txs);
    } else {
        assert(txs =~= Seq::<Transaction>::empty());
    }
}

/// Recording a transaction moves the balance by its signed amount.
pub proof fn lemma_balance_record(account: AccountView, t: Transaction)
    ensures
        account.record(t).balance() == account.balance() + t.signed_amount(),
{
    assert(account.record(t).transactions.drop_last() =~= account.transactions);
}

/// What an account holds: its number, its opening amount and its history,
/// oldest transaction first.
pub struct AccountView {
    pub account_number: Seq<char>,
    pub initial_amount: i64,
    pub transactions: Seq<Transaction>,
}

impl AccountView {
    /// The opening amount plus the signed amount of every transaction.
    pub open spec fn balance(self) -> int {
        self.initial_amount + sum_signed(self.transactions)
    }

    /// The same account with `t` appended to its history.
    pub open spec fn record(self, t: Transaction) -> AccountView {
        AccountView { transactions: self.transactions.push(t), ..self }
    }

    /// Whether the balance can be returned as an `i64`.
    pub open spec fn balance_fits(self) -> bool {
        i64::MIN <= self.balance() <= i64::MAX
    }
}

/// A ledger account. Its number and opening amount are fixed at creation;
/// its history only grows. A negative balance is allowed.
#[derive(Debug)]
pub struct BankAccount {
    account_number: String,
    initial_amount: i64,
    transactions: Vec<Transaction>,
}

impl View for BankAccount {
    type V = AccountView;

    closed spec fn view(&self) -> AccountView {
        AccountView {
            account_number: self.account_number@,
            initial_amount: self.initial_amount,
            transactions: self.transactions@,
        }
    }
}

impl BankAccount {
    /// A new account with the given number and opening amount and no
    /// transactions. The opening amount may be negative.
    pub fn create_new_account(account_number: String, initial_amount: i64) -> (r: BankAccount)
        ensures
            r@ == (AccountView {
                account_number: account_number@,
                initial_amount,
                transactions: Seq::empty(),
            }),
            r@.balance() == initial_amount,
    {
        BankAccount { account_number, initial_amount, transactions: Vec::new() }
    }

    /// The balance, or `None` where it does not fit in an `i64`.
    pub fn checked_balance(&self) -> (r: Option<i64>)
        ensures
            r == (if self@.balance_fits() { Some(self@.balance() as i64) } else { None::<i64> }),
    {
        // The running sum is held in an i128: each transaction moves it by at
        // most 2^63, and a Vec holds fewer than 2^64 of them.
        let txs = &self.transactions;
        let ghost s = txs@;
        let mut acc: i128 = self.initial_amount as i128;
        let mut i: usize = 0;
        while i < txs.len()
            invariant
                s == txs@,
                0 <= i <= s.len(),
                acc == self.initial_amount + sum_signed(s.subrange(0, i as int)),
                -(i + 1) * 0x8000_0000_0000_0000 <= acc <= (i + 1) * 0x8000_0000_0000_0000 - 1,
            decreases s.len() - i,
        {
            let t = txs[i].wide_amount();
            proof {
                assert(s.subrange(0, i + 1).drop_last() == s.subrange(0, i as int));
                assert(i + 2 <= 0x1_0000_0000_0000_0000);
                assert((i + 2) * 0x8000_0000_0000_0000 - 1 <= i128::MAX) by (nonlinear_arith)
                    requires i + 2 <= 0x1_0000_0000_0000_0000;
                assert(-(i + 2) * 0x8000_0000_0000_0000 >= i128::MIN) by (nonlinear_arith)
                    requires i + 2 <= 0x1_0000_0000_0000_0000;
                assert((i + 1) * 0x8000_0000_0000_0000 + 0x8000_0000_0000_0000
                    == (i + 2) * 0x8000_0000_0000_0000) by (nonlinear_arith);
            }
            acc = acc + t;
            i = i + 1;
        }
        proof {
            assert(s.subrange(0, s.len() as int) == s);
        }
        if i64::MIN as i128 <= acc && acc <= i64::MAX as i128 {
            Some(acc as i64)
        } else {
            None
        }
    }

    /// The opening amount plus the signed amount of every transaction.
    pub fn balance(&self) -> (r: i64)
        requires
            self@.balance_fits(),
        ensures
            r == self@.balance(),
    {
        self.checked_balance().unwrap()
    }

    /// Records a deposit of `amount` made at `date`.
    pub fn deposit_at(&mut self, amount: i64, date: Timestamp)
        ensures
            final(self)@ == old(self)@.record(Transaction::Deposit { amount, date }),
    {
        self.transactions.push(Transaction::Deposit { amount, date });
    }

    /// Records a withdrawal of `amount` made at `date`. The balance may go
    /// below zero.
    pub fn with_draw_at(&mut self, amount: i64, date: Timestamp)
        ensures
            final(self)@ == old(self)@.record(Transaction::Withdraw { amount, date }),
    {
        self.transactions.push(Transaction::Withdraw { amount, date });
    }

    /// Records a deposit of `amount`, dated now.
    pub fn deposit(&mut self, amount: i64)
        ensures
            exists|date: Timestamp|
                final(self)@ == old(self)@.record(Transaction::Deposit { amount, date }),
    {
        let date = now();
        self.deposit_at(amount, date);
    }

    /// Records a withdrawal of `amount`, dated now. The balance may go below
    /// zero.
    pub fn with_draw(&mut self, amount: i64)
        ensures
            exists|date: Timestamp|
                final(self)@ == old(self)@.record(Transaction::Withdraw { amount, date }),
    {
        let date = now();
        self.with_draw_at(amount, date);
    }

    pub fn account_number(&self) -> (r: &String)
        ensures
            r@ == self@.account_number,
    {
        &self.account_number
    }

    pub fn initial_amount(&self) -> (r: i64)
        ensures
            r == self@.initial_amount,
    {
        self.initial_amount
    }

    /// The history, oldest transaction first.
    pub fn transactions(&self) -> (r: &Vec<Transaction>)
        ensures
            r@ == self@.transactions,
    {
        &self.transactions
    }
}

impl Clone for BankAccount {
    /// A snapshot: an account equal to this one, sharing nothing with it.
    fn clone(&self) -> (r: Self)
        ensures
            r@ == self@,
    {
        let transactions = self.transactions.clone();
        proof {
            assert(transactions@ =~= self.transactions@);
        }
        BankAccount {
            account_number: self.account_number.clone(),
            initial_amount: self.initial_amount,
            transactions,
        }
    }
}

/// Two accounts are equal when number, opening amount and the whole history,
/// timestamps included, are equal.
impl PartialEq for BankAccount {
    fn eq(&self, other: &BankAccount) -> (r: bool) {
        if self.account_number != other.account_number
            || self.initial_amount != other.initial_amount
            || self.transactions.len() != other.transactions.len()
        {
            return false;
        }
        let mut i: usize = 0;
        while i < self.transactions.len()
            invariant
                self.transactions.len() == other.transactions.len(),
                0 <= i <= self.transactions.len(),
                forall|j: int| 0 <= j < i ==> self.transactions@[j] == other.transactions@[j],
            decreases self.transactions.len() - i,
        {
            if self.transactions[i] != other.transactions[i] {
                return false;
            }
            i = i + 1;
        }
        proof {
            assert(self.transactions@ =~= other.transactions@);
        }
        true
    }
}

impl vstd::std_specs::cmp::PartialEqSpecImpl for BankAccount {
    open spec fn obeys_eq_spec() -> bool {
        true
    }

    open spec fn eq_spec(&self, other: &BankAccount) -> bool {
        self@ == other@
    }
}

} // verus!
