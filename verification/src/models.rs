//! The data model of the ledger service: users, accounts, ledger entries,
//! audit entries, authentication claims, and the request / error types of
//! the engine's public operations.
//!
//! Monetary amounts are exact fixed-point decimals stored as a whole number
//! of hundredths in an `i64` (`15000` stands for `150.00`).

use vstd::prelude::*;

verus! {

/// The role of a user. Only an accountant may inject money into or remove
/// money from circulation.
#[derive(Clone, Copy, Debug, PartialEq, Eq, Structural)]
pub enum Role {
    Regular,
    Accountant,
}

/// A registered user. Identity fields are immutable after signup.
#[derive(Debug)]
pub struct User {
    pub id: i32,
    pub username: String,
    pub password_hash: String,
    pub role: Role,
}

/// A user's account. Invariant at every committed state: `balance >= 0`.
/// The balance is a fixed-point decimal in hundredths.
#[derive(Clone, Copy, Debug)]
pub struct Account {
    pub id: i32,
    pub user_id: i32,
    pub balance: i64,
}

/// An immutable ledger entry. The amount is always positive; the direction
/// is implied by who the sender and recipient are, never by a sign.
///
/// A deposit carries the accountant's user id as sender and the target's
/// user id as recipient; a withdrawal carries the target's user id as
/// sender and the accountant's user id as recipient; a peer transfer
/// carries the two account ids.
#[derive(Clone, Copy, Debug)]
pub struct LedgerEntry {
    pub sender_id: i32,
    pub recipient_id: i32,
    pub amount: i64,
}

/// The kind of a privileged, supply-changing operation.
#[derive(Clone, Copy, Debug, PartialEq, Eq, Structural)]
pub enum AuditKind {
    Deposit,
    Withdrawal,
}

/// An immutable audit entry recording one privileged operation and the
/// accountant who performed it.
#[derive(Clone, Copy, Debug)]
pub struct AuditLogEntry {
    pub amount: i64,
    pub kind: AuditKind,
    pub accountant_user_id: i32,
}

/// The payload of an authentication token: the subject's user id, the
/// expiry time in seconds since the epoch, and the subject's role.
#[derive(Clone, Copy, Debug)]
pub struct Claims {
    pub sub: i32,
    pub exp: u64,
    pub role: Role,
}

/// Credentials presented at signup and login.
#[derive(Debug)]
pub struct UserData {
    pub username: String,
    pub password: String,
}

/// A deposit or withdrawal request: the target user's name and the amount,
/// a fixed-point decimal in hundredths.
#[derive(Debug)]
pub struct AccountantData {
    pub username: String,
    pub amount: i64,
}

/// A peer transfer request: the recipient's name and the amount, a
/// fixed-point decimal in hundredths.
#[derive(Debug)]
pub struct TransactionData {
    pub recipient_username: String,
    pub amount: i64,
}

/// The stable error classification every operation reports.
#[derive(Clone, Copy, Debug, PartialEq, Eq, Structural)]
pub enum LedgerError {
    /// The caller lacks the accountant role.
    Forbidden,
    /// The amount is not positive.
    InvalidAmount,
    /// No user of the given name, or no account for the given user id.
    NotFound,
    /// The debited account holds less than the requested amount.
    InsufficientFunds,
    /// A persistence fault; the enclosing unit of work rolled back whole.
    Storage,
    /// The presented credentials are wrong or missing.
    Unauthorized,
}

} // verus!
