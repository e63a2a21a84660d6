use svm_rs::accounts::{Account, Command, Ledger, LedgerError, Reason, Transaction};

fn ledger_with(accounts: &[(&str, i64)]) -> Ledger {
    let mut ledger = Ledger::new("USD".to_string());
    for (name, amount) in accounts {
        ledger.add_account(Account::new(name.to_string(), *amount));
    }
    ledger
}

fn total(ledger: &Ledger, names: &[&str]) -> i64 {
    names.iter().map(|n| ledger.balance(n).unwrap()).sum()
}

fn last(ledger: &Ledger) -> &Transaction {
    ledger.transactions().last().unwrap()
}

#[test]
fn transfer_between_two_accounts_succeeds() {
    let mut ledger = ledger_with(&[("A", 100), ("B", 200)]);
    assert_eq!(ledger.transfer_money("A", "B", 30, Reason::Basic), Ok(()));
    assert_eq!(ledger.balance("A"), Some(70));
    assert_eq!(ledger.balance("B"), Some(230));
    assert_eq!(ledger.transactions().len(), 1);
    let record = last(&ledger);
    assert!(record.status);
    assert_eq!(record.amount, Some(30));
    assert_eq!(record.from_account, Some("A".to_string()));
    assert_eq!(record.account, Some("B".to_string()));
    assert_eq!(record.description, "Payment succeeded");
    assert_eq!(record.step, 0);
}

#[test]
fn transfer_to_missing_account_fails() {
    let mut ledger = ledger_with(&[("A", 10)]);
    assert_eq!(
        ledger.transfer_money("A", "B", 5, Reason::Basic),
        Err(LedgerError::TargetAccountNotFound)
    );
    assert_eq!(ledger.balance("A"), Some(10));
    assert_eq!(ledger.balance("B"), None);
    assert_eq!(ledger.sizeof(), 1);
    assert_eq!(ledger.transactions().len(), 1);
    assert!(!last(&ledger).status);
}

#[test]
fn transfer_beyond_balance_fails() {
    let mut ledger = ledger_with(&[("A", 10), ("B", 0)]);
    assert_eq!(
        ledger.transfer_money("A", "B", 50, Reason::Basic),
        Err(LedgerError::InsufficientFunds)
    );
    assert_eq!(ledger.balance("A"), Some(10));
    assert_eq!(ledger.balance("B"), Some(0));
    assert_eq!(ledger.transactions().len(), 1);
    assert!(!last(&ledger).status);
    assert_eq!(last(&ledger).amount, Some(50));
}

#[test]
fn transfer_from_missing_account_fails() {
    let mut ledger = ledger_with(&[("B", 5)]);
    assert_eq!(
        ledger.transfer_money("Z", "B", 1, Reason::Basic),
        Err(LedgerError::SourceAccountNotFound)
    );
    assert_eq!(ledger.balance("Z"), None);
    assert_eq!(ledger.balance("B"), Some(5));
    assert_eq!(ledger.sizeof(), 1);
    assert_eq!(ledger.transactions().len(), 1);
    assert!(!last(&ledger).status);
}

#[test]
fn source_is_checked_before_target() {
    let mut ledger = ledger_with(&[]);
    assert_eq!(
        ledger.transfer_money("X", "Y", 1, Reason::Basic),
        Err(LedgerError::SourceAccountNotFound)
    );
}

#[test]
fn negative_amount_is_rejected() {
    let mut ledger = ledger_with(&[("A", 10), ("B", 10)]);
    assert_eq!(
        ledger.transfer_money("A", "B", -5, Reason::Basic),
        Err(LedgerError::InvalidAmount)
    );
    assert_eq!(ledger.balance("A"), Some(10));
    assert_eq!(ledger.balance("B"), Some(10));
    assert!(!last(&ledger).status);
}

#[test]
fn successful_transfers_keep_the_total() {
    let names = ["A", "B", "C"];
    let mut ledger = ledger_with(&[("A", 100), ("B", 200), ("C", 7)]);
    let before = total(&ledger, &names);
    assert_eq!(ledger.transfer_money("A", "B", 40, Reason::Basic), Ok(()));
    assert_eq!(ledger.transfer_money("B", "C", 240, Reason::Basic), Ok(()));
    assert_eq!(ledger.transfer_money("C", "A", 47, Reason::Basic), Ok(()));
    assert_eq!(ledger.transfer_money("A", "A", 10, Reason::Basic), Ok(()));
    assert_eq!(total(&ledger, &names), before);
    assert_eq!(ledger.balance("A"), Some(107));
    assert_eq!(ledger.balance("B"), Some(0));
    assert_eq!(ledger.balance("C"), Some(200));
}

#[test]
fn failed_transfer_changes_no_balance() {
    let mut ledger = ledger_with(&[("A", 1), ("B", 2)]);
    assert!(ledger.transfer_money("A", "B", 2, Reason::Basic).is_err());
    assert_eq!(ledger.balance("A"), Some(1));
    assert_eq!(ledger.balance("B"), Some(2));
    assert!(!last(&ledger).status);
    assert!(ledger.transfer_money("B", "A", 2, Reason::Basic).is_ok());
    assert_eq!(ledger.balance("A"), Some(3));
    assert_eq!(ledger.balance("B"), Some(0));
    assert!(last(&ledger).status);
}

#[test]
fn log_grows_by_one_per_transfer_and_keeps_entries() {
    let mut ledger = ledger_with(&[("A", 10), ("B", 0)]);
    let _ = ledger.transfer_money("A", "B", 4, Reason::Detailed("rent".to_string()));
    let first = ledger.transactions()[0].clone();
    let _ = ledger.transfer_money("A", "B", 40, Reason::Basic);
    let _ = ledger.transfer_money("Q", "B", 1, Reason::Basic);
    assert_eq!(ledger.transactions().len(), 3);
    assert_eq!(ledger.transactions()[0], first);
    assert_eq!(first.description, "rent");
    let steps: Vec<i64> = ledger.transactions().iter().map(|t| t.step).collect();
    assert_eq!(steps, vec![0, 1, 2]);
    let statuses: Vec<bool> = ledger.transactions().iter().map(|t| t.status).collect();
    assert_eq!(statuses, vec![true, false, false]);
}

#[test]
fn same_transfer_twice_is_done_twice() {
    let mut ledger = ledger_with(&[("A", 100), ("B", 0)]);
    assert_eq!(ledger.transfer_money("A", "B", 30, Reason::Basic), Ok(()));
    assert_eq!(ledger.transfer_money("A", "B", 30, Reason::Basic), Ok(()));
    assert_eq!(ledger.balance("A"), Some(40));
    assert_eq!(ledger.balance("B"), Some(60));
    assert_eq!(ledger.transactions().len(), 2);
    assert_ne!(ledger.transactions()[0], ledger.transactions()[1]);
    assert!(ledger.transactions().iter().all(|t| t.status));
}

#[test]
fn money_command_transfers() {
    let mut ledger = ledger_with(&[("A", 100), ("B", 200)]);
    let cmd = Command::Money("B".to_string(), "A".to_string(), 150, Reason::Basic);
    assert_eq!(ledger.command(cmd), Ok(()));
    assert_eq!(ledger.balance("A"), Some(250));
    assert_eq!(ledger.balance("B"), Some(50));
    assert_eq!(ledger.transactions().len(), 1);
    let cmd = Command::Money("B".to_string(), "A".to_string(), 51, Reason::Basic);
    assert_eq!(ledger.command(cmd), Err(LedgerError::InsufficientFunds));
    assert_eq!(ledger.transactions().len(), 2);
}

#[test]
fn key_log_command_changes_nothing() {
    let mut ledger = ledger_with(&[("A", 100)]);
    assert_eq!(ledger.command(Command::KeyLog), Ok(()));
    assert_eq!(ledger.transactions().len(), 0);
    assert_eq!(ledger.balance("A"), Some(100));
}

#[test]
fn adding_an_account_again_replaces_it() {
    let mut ledger = Ledger::new("EUR".to_string());
    ledger.add_accounts(vec![
        Account::new("A".to_string(), 1),
        Account::new("B".to_string(), 2),
        Account::new("A".to_string(), 3),
    ]);
    assert_eq!(ledger.sizeof(), 2);
    assert_eq!(ledger.balance("A"), Some(3));
    assert_eq!(ledger.balance("B"), Some(2));
    assert_eq!(ledger.currency(), "EUR");
}

#[test]
fn new_ledger_is_empty() {
    let ledger = Ledger::new("USD".to_string());
    assert_eq!(ledger.sizeof(), 0);
    assert_eq!(ledger.balance("A"), None);
    assert!(ledger.transactions().is_empty());
    assert_eq!(ledger.currency(), "USD");
}

#[test]
fn deposit_adds_to_balance() {
    let mut account = Account::new("A".to_string(), 5);
    account.deposit(7);
    assert_eq!(account.amount, 12);
    assert_eq!(account.account, "A");
}

#[test]
fn withdraw_of_whole_balance_succeeds() {
    let mut account = Account::new("A".to_string(), 5);
    assert_eq!(account.withdraw(5), Ok(()));
    assert_eq!(account.amount, 0);
    assert_eq!(account.withdraw(1), Err(LedgerError::InsufficientFunds));
    assert_eq!(account.amount, 0);
}

#[test]
fn transfer_up_to_largest_balance() {
    let mut ledger = ledger_with(&[("A", 1), ("B", i64::MAX - 1)]);
    assert_eq!(ledger.transfer_money("A", "B", 1, Reason::Basic), Ok(()));
    assert_eq!(ledger.balance("B"), Some(i64::MAX));
    assert_eq!(ledger.balance("A"), Some(0));
}

#[test]
fn reason_messages() {
    assert_eq!(Reason::Basic.msg(), "Payment succeeded");
    assert_eq!(Reason::Detailed("gift".to_string()).msg(), "gift");
}

#[test]
fn error_messages() {
    assert_eq!(LedgerError::SourceAccountNotFound.msg(), "The origin account does not exist");
    assert_eq!(LedgerError::TargetAccountNotFound.msg(), "The to account does not exist");
    assert_eq!(LedgerError::InvalidAmount.msg(), "The amount is negative");
    assert_eq!(LedgerError::InsufficientFunds.msg(), "Insufficient funds");
}

#[test]
fn record_carries_detailed_reason() {
    let t = Transaction::new(3, "X".to_string(), "Y".to_string(), 9, Reason::Detailed("why".to_string()));
    assert_eq!(t.step, 3);
    assert!(t.status);
    assert_eq!(t.description, "why");
    assert_eq!(t.from_account, Some("X".to_string()));
    assert_eq!(t.account, Some("Y".to_string()));
    assert_eq!(t.amount, Some(9));
    assert!(t.transactions.is_none());
}
