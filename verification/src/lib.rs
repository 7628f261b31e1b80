//! A minimal ledger service: users hold balances, an authorized accountant
//! role injects or removes money from circulation, and users transfer funds
//! to each other.
//!
//! The heart of the crate is the ledger transaction engine in [`ledger`]: a
//! set of atomic, invariant-preserving operations (deposit, withdrawal, peer
//! transfer) over an in-memory ledger state, each proved to preserve the
//! conservation law (the money supply equals the sum of all balances) and
//! the non-negativity of every balance, and to have no effect at all when it
//! fails.
//!
//! Amounts are exact fixed-point decimals, carried as a whole number of
//! hundredths (so `15000` stands for `150.00`); binary floating point never
//! enters the engine.

pub mod models;
pub mod state;
pub mod ledger;
pub mod auth;
pub mod laws;
