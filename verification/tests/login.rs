//! Tests of signup, credential checking and token claims, run against the
//! real bcrypt implementation.

use friendbank::auth::{verify_accountant_role, TOKEN_LIFETIME_SECS};
use friendbank::ledger::Ledger;
use friendbank::models::{Claims, LedgerError, Role, UserData};

fn s(x: &str) -> String {
    x.to_string()
}

fn creds(name: &str, password: &str) -> UserData {
    UserData { username: s(name), password: s(password) }
}

#[test]
fn signup_then_login_succeeds() {
    let mut l = Ledger::new();
    let r = l.signup(&creds("alice", "open sesame"));
    assert_eq!(r, Ok(1));
    assert_eq!(l.users.len(), 1);
    assert_eq!(l.accounts.len(), 1);
    assert_eq!(l.accounts[0].balance, 0);
    assert_eq!(l.users[0].role, Role::Regular);
    // the stored hash is salted, never the bare password
    assert_ne!(l.users[0].password_hash, s("open sesame"));

    let u = l.verify_login(&creds("alice", "open sesame")).expect("the password matches");
    assert_eq!(u.id, 1);
    assert_eq!(u.username, s("alice"));
    assert_eq!(u.role, Role::Regular);
}

#[test]
fn wrong_password_is_unauthorized() {
    let mut l = Ledger::new();
    l.signup(&creds("alice", "right")).unwrap();
    let r = l.verify_login(&creds("alice", "wrong"));
    assert_eq!(r.err(), Some(LedgerError::Unauthorized));
}

#[test]
fn unknown_user_is_unauthorized() {
    let l = Ledger::new();
    let r = l.verify_login(&creds("ghost", "whatever"));
    assert_eq!(r.err(), Some(LedgerError::Unauthorized));
}

#[test]
fn duplicate_signup_fails_with_storage_error() {
    let mut l = Ledger::new();
    l.signup(&creds("alice", "one")).unwrap();
    let r = l.signup(&creds("alice", "two"));
    assert_eq!(r, Err(LedgerError::Storage));
    assert_eq!(l.users.len(), 1);
}

#[test]
fn login_issues_claims_for_two_hours() {
    let mut l = Ledger::new();
    l.create_user(&s("boss"), &bcrypt::hash("books", 10).unwrap(), Role::Accountant).unwrap();
    let now: u64 = 1_700_000_000;
    let c = l.login(&creds("boss", "books"), now).expect("the password matches");
    assert_eq!(c.sub, 1);
    assert_eq!(c.exp, now + TOKEN_LIFETIME_SECS);
    assert_eq!(c.exp, now + 7200);
    assert_eq!(c.role, Role::Accountant);
}

#[test]
fn only_accountant_claims_pass_the_gate() {
    let accountant = Claims { sub: 1, exp: 99, role: Role::Accountant };
    let regular = Claims { sub: 2, exp: 99, role: Role::Regular };
    assert_eq!(verify_accountant_role(Some(&accountant)), Ok(()));
    assert_eq!(verify_accountant_role(Some(&regular)), Err(LedgerError::Forbidden));
    assert_eq!(verify_accountant_role(None), Err(LedgerError::Unauthorized));
}
