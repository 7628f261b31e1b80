//! End-to-end tests of the ledger transaction engine: the documented
//! scenarios, the conservation and zero-sum laws on concrete runs, every
//! error variant, and atomicity of failed operations.

use friendbank::ledger::Ledger;
use friendbank::models::{AccountantData, AuditKind, LedgerError, Role, TransactionData};

fn s(x: &str) -> String {
    x.to_string()
}

/// A ledger with an accountant "boss" (user id 1) and regular users
/// "alice" (id 2) and "bob" (id 3), all accounts at balance zero.
fn setup() -> Ledger {
    let mut l = Ledger::new();
    assert_eq!(l.create_user(&s("boss"), &s("x"), Role::Accountant), Ok(1));
    assert_eq!(l.create_user(&s("alice"), &s("x"), Role::Regular), Ok(2));
    assert_eq!(l.create_user(&s("bob"), &s("x"), Role::Regular), Ok(3));
    l
}

fn deposit(l: &mut Ledger, to: &str, amount: i64) {
    let r = l.deposit(1, Role::Accountant, &AccountantData { username: s(to), amount });
    assert_eq!(r, Ok(()));
}

fn sum_of_balances(l: &Ledger) -> i64 {
    l.accounts.iter().map(|a| a.balance).sum()
}

#[test]
fn deposit_credits_account_supply_ledger_and_audit() {
    // Account alice has balance 100.00; the accountant deposits 50.00.
    let mut l = setup();
    deposit(&mut l, "alice", 10_000);
    let supply_before = l.total_supply;
    let txs_before = l.transactions.len();
    let audits_before = l.audit_log.len();

    deposit(&mut l, "alice", 5_000);

    assert_eq!(l.balance_of(&s("alice")), Some(15_000));
    assert_eq!(l.total_supply, supply_before + 5_000);
    assert_eq!(l.transactions.len(), txs_before + 1);
    let t = l.transactions.last().unwrap();
    assert_eq!(t.sender_id, 1); // the accountant's user id
    assert_eq!(t.recipient_id, 2); // alice's user id
    assert_eq!(t.amount, 5_000);
    assert_eq!(l.audit_log.len(), audits_before + 1);
    let a = l.audit_log.last().unwrap();
    assert_eq!(a.kind, AuditKind::Deposit);
    assert_eq!(a.amount, 5_000);
    assert_eq!(a.accountant_user_id, 1);
}

#[test]
fn transfer_with_insufficient_funds_changes_nothing() {
    // Account alice has balance 30.00; Transfer(alice -> bob, 50.00) fails.
    let mut l = setup();
    deposit(&mut l, "alice", 3_000);
    let txs_before = l.transactions.len();

    let r = l.transfer(2, &TransactionData { recipient_username: s("bob"), amount: 5_000 });

    assert_eq!(r, Err(LedgerError::InsufficientFunds));
    assert_eq!(l.balance_of(&s("alice")), Some(3_000));
    assert_eq!(l.balance_of(&s("bob")), Some(0));
    assert_eq!(l.transactions.len(), txs_before);
}

#[test]
fn transfer_moves_exactly_the_amount() {
    // alice 100.00, bob 10.00; Transfer(alice -> bob, 40.00).
    let mut l = setup();
    deposit(&mut l, "alice", 10_000);
    deposit(&mut l, "bob", 1_000);
    let supply_before = l.total_supply;
    let txs_before = l.transactions.len();
    let audits_before = l.audit_log.len();

    let r = l.transfer(2, &TransactionData { recipient_username: s("bob"), amount: 4_000 });

    assert_eq!(r, Ok(()));
    assert_eq!(l.balance_of(&s("alice")), Some(6_000));
    assert_eq!(l.balance_of(&s("bob")), Some(5_000));
    assert_eq!(l.total_supply, supply_before);
    assert_eq!(l.transactions.len(), txs_before + 1);
    let t = l.transactions.last().unwrap();
    assert_eq!(t.sender_id, 2); // alice's account id
    assert_eq!(t.recipient_id, 3); // bob's account id
    assert_eq!(t.amount, 4_000);
    assert_eq!(l.audit_log.len(), audits_before); // transfers are never audited
}

#[test]
fn withdrawal_beyond_balance_changes_nothing() {
    // The accountant withdraws 200.00 from a user holding 150.00.
    let mut l = setup();
    deposit(&mut l, "alice", 15_000);
    let supply_before = l.total_supply;

    let r = l.withdraw(1, Role::Accountant, &AccountantData { username: s("alice"), amount: 20_000 });

    assert_eq!(r, Err(LedgerError::InsufficientFunds));
    assert_eq!(l.total_supply, supply_before);
    assert_eq!(l.balance_of(&s("alice")), Some(15_000));
}

#[test]
fn withdrawal_debits_account_supply_ledger_and_audit() {
    let mut l = setup();
    deposit(&mut l, "alice", 15_000);

    let r = l.withdraw(1, Role::Accountant, &AccountantData { username: s("alice"), amount: 4_000 });

    assert_eq!(r, Ok(()));
    assert_eq!(l.balance_of(&s("alice")), Some(11_000));
    assert_eq!(l.total_supply, 11_000);
    let t = l.transactions.last().unwrap();
    assert_eq!(t.sender_id, 2); // alice's user id
    assert_eq!(t.recipient_id, 1); // the accountant's user id
    assert_eq!(t.amount, 4_000);
    let a = l.audit_log.last().unwrap();
    assert_eq!(a.kind, AuditKind::Withdrawal);
    assert_eq!(a.amount, 4_000);
    assert_eq!(a.accountant_user_id, 1);
}

#[test]
fn non_accountants_cannot_move_the_supply() {
    let mut l = setup();
    deposit(&mut l, "alice", 10_000);
    let supply_before = l.total_supply;
    let txs_before = l.transactions.len();
    let audits_before = l.audit_log.len();
    let count_before = l.transaction_count;

    let data = AccountantData { username: s("bob"), amount: 1_000 };
    assert_eq!(l.deposit(2, Role::Regular, &data), Err(LedgerError::Forbidden));
    assert_eq!(l.withdraw(2, Role::Regular, &data), Err(LedgerError::Forbidden));

    assert_eq!(l.total_supply, supply_before);
    assert_eq!(l.balance_of(&s("bob")), Some(0));
    assert_eq!(l.transactions.len(), txs_before);
    assert_eq!(l.audit_log.len(), audits_before);
    assert_eq!(l.transaction_count, count_before);
}

#[test]
fn supply_tracks_deposits_minus_withdrawals() {
    // Conservation on a concrete run: the supply equals the sum of all
    // balances and moves only by successful deposits and withdrawals.
    let mut l = setup();
    assert_eq!(l.total_supply, 0);
    deposit(&mut l, "alice", 10_000);
    deposit(&mut l, "bob", 2_500);
    let r = l.withdraw(1, Role::Accountant, &AccountantData { username: s("alice"), amount: 500 });
    assert_eq!(r, Ok(()));
    // a failed withdrawal and a transfer contribute nothing
    let r = l.withdraw(1, Role::Accountant, &AccountantData { username: s("bob"), amount: 99_999 });
    assert_eq!(r, Err(LedgerError::InsufficientFunds));
    let r = l.transfer(2, &TransactionData { recipient_username: s("bob"), amount: 1_500 });
    assert_eq!(r, Ok(()));

    assert_eq!(l.total_supply, 10_000 + 2_500 - 500);
    assert_eq!(l.total_supply, sum_of_balances(&l));
}

#[test]
fn non_positive_amounts_are_rejected() {
    let mut l = setup();
    deposit(&mut l, "alice", 1_000);
    let data_zero = AccountantData { username: s("alice"), amount: 0 };
    let data_neg = AccountantData { username: s("alice"), amount: -100 };
    assert_eq!(l.deposit(1, Role::Accountant, &data_zero), Err(LedgerError::InvalidAmount));
    assert_eq!(l.deposit(1, Role::Accountant, &data_neg), Err(LedgerError::InvalidAmount));
    assert_eq!(l.withdraw(1, Role::Accountant, &data_zero), Err(LedgerError::InvalidAmount));
    assert_eq!(l.withdraw(1, Role::Accountant, &data_neg), Err(LedgerError::InvalidAmount));
    let t_zero = TransactionData { recipient_username: s("bob"), amount: 0 };
    let t_neg = TransactionData { recipient_username: s("bob"), amount: -1 };
    assert_eq!(l.transfer(2, &t_zero), Err(LedgerError::InvalidAmount));
    assert_eq!(l.transfer(2, &t_neg), Err(LedgerError::InvalidAmount));
    assert_eq!(l.balance_of(&s("alice")), Some(1_000));
    assert_eq!(l.total_supply, 1_000);
}

#[test]
fn unknown_names_and_ids_are_not_found() {
    let mut l = setup();
    deposit(&mut l, "alice", 1_000);
    let data = AccountantData { username: s("nobody"), amount: 100 };
    assert_eq!(l.deposit(1, Role::Accountant, &data), Err(LedgerError::NotFound));
    assert_eq!(l.withdraw(1, Role::Accountant, &data), Err(LedgerError::NotFound));
    let t = TransactionData { recipient_username: s("nobody"), amount: 100 };
    assert_eq!(l.transfer(2, &t), Err(LedgerError::NotFound));
    // a sender id with no account
    let t2 = TransactionData { recipient_username: s("bob"), amount: 100 };
    assert_eq!(l.transfer(77, &t2), Err(LedgerError::NotFound));
    assert_eq!(l.total_supply, 1_000);
}

#[test]
fn self_transfer_nets_to_no_change() {
    let mut l = setup();
    deposit(&mut l, "alice", 2_000);
    let txs_before = l.transactions.len();

    let r = l.transfer(2, &TransactionData { recipient_username: s("alice"), amount: 700 });

    assert_eq!(r, Ok(()));
    assert_eq!(l.balance_of(&s("alice")), Some(2_000));
    assert_eq!(l.total_supply, 2_000);
    assert_eq!(l.transactions.len(), txs_before + 1);
    let t = l.transactions.last().unwrap();
    assert_eq!(t.sender_id, 2);
    assert_eq!(t.recipient_id, 2);
    assert_eq!(t.amount, 700);
}

#[test]
fn failed_operations_leave_no_trace() {
    let mut l = setup();
    deposit(&mut l, "alice", 5_000);
    let supply = l.total_supply;
    let txs = l.transactions.len();
    let audits = l.audit_log.len();
    let count = l.transaction_count;

    let _ = l.deposit(2, Role::Regular, &AccountantData { username: s("alice"), amount: 100 });
    let _ = l.deposit(1, Role::Accountant, &AccountantData { username: s("alice"), amount: 0 });
    let _ = l.deposit(1, Role::Accountant, &AccountantData { username: s("ghost"), amount: 100 });
    let _ = l.withdraw(1, Role::Accountant, &AccountantData { username: s("alice"), amount: 6_000 });
    let _ = l.transfer(2, &TransactionData { recipient_username: s("bob"), amount: 6_000 });
    let _ = l.transfer(2, &TransactionData { recipient_username: s("ghost"), amount: 100 });

    assert_eq!(l.total_supply, supply);
    assert_eq!(l.transactions.len(), txs);
    assert_eq!(l.audit_log.len(), audits);
    assert_eq!(l.transaction_count, count);
    assert_eq!(l.balance_of(&s("alice")), Some(5_000));
    assert_eq!(l.balance_of(&s("bob")), Some(0));
}

#[test]
fn users_get_sequential_ids_and_empty_accounts() {
    let l = setup();
    assert_eq!(l.users.len(), 3);
    assert_eq!(l.accounts.len(), 3);
    for (i, u) in l.users.iter().enumerate() {
        assert_eq!(u.id, i as i32 + 1);
    }
    for (i, a) in l.accounts.iter().enumerate() {
        assert_eq!(a.id, i as i32 + 1);
        assert_eq!(a.user_id, i as i32 + 1);
        assert_eq!(a.balance, 0);
    }
    assert_eq!(l.total_supply, 0);
    assert_eq!(l.transaction_count, 0);
}

#[test]
fn duplicate_usernames_are_refused() {
    let mut l = setup();
    let r = l.create_user(&s("alice"), &s("y"), Role::Regular);
    assert_eq!(r, Err(LedgerError::Storage));
    assert_eq!(l.users.len(), 3);
    assert_eq!(l.accounts.len(), 3);
}

#[test]
fn operation_counter_counts_committed_operations() {
    let mut l = setup();
    assert_eq!(l.transaction_count, 0);
    deposit(&mut l, "alice", 1_000);
    assert_eq!(l.transaction_count, 1);
    let r = l.transfer(2, &TransactionData { recipient_username: s("bob"), amount: 400 });
    assert_eq!(r, Ok(()));
    assert_eq!(l.transaction_count, 2);
    let r = l.withdraw(1, Role::Accountant, &AccountantData { username: s("bob"), amount: 400 });
    assert_eq!(r, Ok(()));
    assert_eq!(l.transaction_count, 3);
    assert_eq!(l.transaction_count as usize, l.transactions.len());
}

#[test]
fn unknown_balance_is_none() {
    let l = setup();
    assert_eq!(l.balance_of(&s("ghost")), None);
}
