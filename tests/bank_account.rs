use bank_ledger::{BankAccount, Timestamp, Transaction};
use chrono::Utc;

fn current_time() -> Timestamp {
    let t = Utc::now();
    Timestamp { seconds: t.timestamp(), nanoseconds: t.timestamp_subsec_nanos() }
}

fn at(seconds: i64) -> Timestamp {
    Timestamp { seconds, nanoseconds: 0 }
}

#[test]
fn truc() {
    let _time = Utc::now();
}

#[test]
fn should_create_new_bank_account() {
    let account = BankAccount::create_new_account("account_number".to_string(), 100);

    assert_eq!(account.account_number(), "account_number");
    assert_eq!(account.initial_amount(), 100);
}

#[test]
fn should_get_balance() {
    let account = BankAccount::create_new_account("account_number".to_string(), 1_000);

    assert_eq!(account.balance(), 1_000);
}

#[test]
fn should_compute_transaction_deposit_amount() {
    let transaction = Transaction::Deposit { amount: 1_000, date: current_time() };

    assert_eq!(transaction.amount(), 1_000);
}

#[test]
fn should_compute_transaction_withdraw_amount() {
    let transaction = Transaction::Withdraw { amount: 1_000, date: current_time() };

    assert_eq!(transaction.amount(), -1_000);
}

#[test]
fn should_create_new_bank_account_with_transaction() {
    let account = BankAccount::create_new_account("account_number".to_string(), 100);

    assert_eq!(account.account_number(), "account_number");
    assert_eq!(account.transactions().len(), 0);
    assert_eq!(account.initial_amount(), 100);
}

#[test]
fn should_deposit_to_bank_account() {
    let mut account = BankAccount::create_new_account("account_number".to_string(), 100);

    account.deposit(1000);

    assert_eq!(
        matches!(account.transactions()[0], Transaction::Deposit { date: _date, amount: 1000 }),
        true
    );
}

#[test]
fn should_with_draw_to_bank_account() {
    let mut account = BankAccount::create_new_account("account_number".to_string(), 100);

    account.with_draw(500);

    assert_eq!(
        matches!(account.transactions()[0], Transaction::Withdraw { date: _date, amount: 500 }),
        true
    );
}

#[test]
fn should_compute_balance() {
    let mut account = BankAccount::create_new_account("account_number".to_string(), 1000);

    account.with_draw(500);
    account.deposit(2000);

    assert_eq!(account.balance(), 2_500);
}

#[test]
fn balance_is_opening_amount_plus_deposits_minus_withdrawals_in_any_order() {
    let mut first = BankAccount::create_new_account("A".to_string(), 50);
    first.deposit(10);
    first.with_draw(30);
    first.deposit(5);
    first.with_draw(100);

    let mut second = BankAccount::create_new_account("A".to_string(), 50);
    second.with_draw(100);
    second.with_draw(30);
    second.deposit(5);
    second.deposit(10);

    assert_eq!(first.balance(), 50 + 10 + 5 - 30 - 100);
    assert_eq!(second.balance(), first.balance());
    assert_eq!(first.transactions().len(), 4);
}

#[test]
fn new_account_has_no_history_and_opening_balance() {
    let account = BankAccount::create_new_account("id".to_string(), -75);

    assert!(account.transactions().is_empty());
    assert_eq!(account.balance(), -75);
    assert_eq!(account.checked_balance(), Some(-75));
}

#[test]
fn overdraft_is_allowed() {
    let mut account = BankAccount::create_new_account("id".to_string(), 0);

    account.with_draw(1);

    assert_eq!(account.balance(), -1);
}

#[test]
fn dated_transactions_keep_their_date_and_order() {
    let mut account = BankAccount::create_new_account("id".to_string(), 0);

    account.deposit_at(7, at(10));
    account.with_draw_at(3, at(20));

    assert_eq!(
        account.transactions(),
        &vec![
            Transaction::Deposit { amount: 7, date: at(10) },
            Transaction::Withdraw { amount: 3, date: at(20) },
        ]
    );
    assert_eq!(account.balance(), 4);
}

#[test]
fn recorded_time_is_read_from_the_clock() {
    let before = Utc::now().timestamp();
    let mut account = BankAccount::create_new_account("id".to_string(), 0);

    account.deposit(1);

    match account.transactions()[0] {
        Transaction::Deposit { date, .. } => {
            assert!(date.seconds >= before);
            assert!(date.seconds > 0);
            assert!(date.nanoseconds < 1_000_000_000);
        }
        Transaction::Withdraw { .. } => panic!("expected a deposit"),
    }
}

#[test]
fn equality_compares_history_with_timestamps() {
    let mut a = BankAccount::create_new_account("id".to_string(), 1);
    let mut b = BankAccount::create_new_account("id".to_string(), 1);
    assert_eq!(a, b);

    a.deposit_at(5, at(1));
    b.deposit_at(5, at(2));
    assert_ne!(a, b);

    let c = a.clone();
    assert_eq!(a, c);
    assert_ne!(a, BankAccount::create_new_account("other".to_string(), 1));
    assert_ne!(
        BankAccount::create_new_account("id".to_string(), 1),
        BankAccount::create_new_account("id".to_string(), 2)
    );
}

#[test]
fn balance_outside_i64_is_reported() {
    let mut account = BankAccount::create_new_account("id".to_string(), i64::MAX);
    account.deposit_at(1, at(0));
    assert_eq!(account.checked_balance(), None);

    account.with_draw_at(1, at(0));
    assert_eq!(account.checked_balance(), Some(i64::MAX));
    assert_eq!(account.balance(), i64::MAX);
}

#[test]
fn intermediate_sums_may_leave_i64() {
    let mut account = BankAccount::create_new_account("id".to_string(), i64::MAX);
    account.deposit_at(i64::MAX, at(0));
    account.with_draw_at(i64::MAX, at(0));

    assert_eq!(account.balance(), i64::MAX);
}

#[test]
fn withdrawal_amount_is_negated() {
    let transaction = Transaction::Withdraw { amount: -20, date: at(0) };

    assert_eq!(transaction.amount(), 20);
}

#[test]
fn history_is_kept_in_call_order() {
    let mut account = BankAccount::create_new_account("id".to_string(), 0);

    account.deposit(3);
    account.with_draw(1);
    account.with_draw(4);
    account.deposit(1);

    let history = account.transactions();
    assert_eq!(history.len(), 4);
    assert!(matches!(history[0], Transaction::Deposit { amount: 3, .. }));
    assert!(matches!(history[1], Transaction::Withdraw { amount: 1, .. }));
    assert!(matches!(history[2], Transaction::Withdraw { amount: 4, .. }));
    assert!(matches!(history[3], Transaction::Deposit { amount: 1, .. }));
    assert_eq!(account.balance(), -1);
}
