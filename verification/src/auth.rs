//! Credential checking and token payloads.
//!
//! The engine consumes an already-resolved `(user id, role)` pair per
//! request; this module supplies that collaborator's logic: password
//! verification at login, the claims a token carries, and the single
//! authorization predicate privileged operations share. Password hashing
//! and checking are done by bcrypt behind trusted wrappers; everything
//! around the two calls is verified.

use vstd::prelude::*;

use crate::ledger::Ledger;
use crate::models::{Claims, LedgerError, Role, User, UserData};

verus! {

/// How long an issued token stays valid, in seconds: two hours.
pub const TOKEN_LIFETIME_SECS: u64 = 7200;

/// Whether bcrypt accepts this password against this stored hash. The
/// check re-derives the hash from the password and the salt and cost
/// embedded in the stored hash string, so the answer is a function of the
/// two arguments alone.
pub uninterp spec fn bcrypt_accepts(password: Seq<char>, hash: Seq<char>) -> bool;

/// Relies on `bcrypt::verify`: deterministically checks a password against
/// a stored bcrypt hash. An error (a malformed stored hash) is folded into
/// rejection, as the service treats both as wrong credentials.
#[verifier::external_body]
fn bcrypt_verify(password: &String, hash: &String) -> (r: bool)
    ensures
        r == bcrypt_accepts(password@, hash@),
{
    bcrypt::verify(password.as_str(), hash.as_str()).unwrap_or(false)
}

/// Relies on `bcrypt::hash`: derives a salted hash of the password (cost
/// 10). The salt comes from the operating system's randomness, so nothing
/// is promised of the hash string itself beyond what bcrypt documents:
/// verifying the hashed password against it succeeds.
#[verifier::external_body]
fn bcrypt_hash(password: &String) -> (r: Option<String>)
    ensures
        r is Some ==> bcrypt_accepts(password@, r->Some_0@),
{
    bcrypt::hash(password.as_str(), 10).ok()
}

/// The single authorization predicate privileged operations share: only a
/// presented token whose role is accountant passes. A missing token is
/// `Unauthorized`, a token of any other role `Forbidden`.
pub fn verify_accountant_role(claims: Option<&Claims>) -> (r: Result<(), LedgerError>)
    ensures
        r == match claims {
            None => Err::<(), LedgerError>(LedgerError::Unauthorized),
            Some(c) => if c.role == Role::Accountant {
                Ok::<(), LedgerError>(())
            } else {
                Err::<(), LedgerError>(LedgerError::Forbidden)
            },
        },
{
    match claims {
        None => Err(LedgerError::Unauthorized),
        Some(c) => {
            if c.role == Role::Accountant {
                Ok(())
            } else {
                Err(LedgerError::Forbidden)
            }
        },
    }
}

impl Ledger {
    /// Checks a username/password pair against the user table and returns
    /// the matching user. An unknown name and a rejected password are both
    /// reported as `Unauthorized`, indistinguishably.
    pub fn verify_login(&self, user_data: &UserData) -> (r: Result<User, LedgerError>)
        requires
            self.wf(),
        ensures
            ({
                let taken = self@.name_taken(user_data.username@);
                let idx = self@.user_index_of(user_data.username@);
                match r {
                    Ok(u) => {
                        &&& taken
                        &&& u@ == self@.users[idx]
                        &&& bcrypt_accepts(user_data.password@, u.password_hash@)
                    },
                    Err(e) => {
                        &&& e == LedgerError::Unauthorized
                        &&& taken ==> !bcrypt_accepts(
                            user_data.password@,
                            self@.users[idx].password_hash,
                        )
                    },
                }
            }),
    {
        match self.find_user_index_by_name(&user_data.username) {
            None => Err(LedgerError::Unauthorized),
            Some(i) => {
                if bcrypt_verify(&user_data.password, &self.users[i].password_hash) {
                    let u = &self.users[i];
                    Ok(
                        User {
                            id: u.id,
                            username: u.username.clone(),
                            password_hash: u.password_hash.clone(),
                            role: u.role,
                        },
                    )
                } else {
                    Err(LedgerError::Unauthorized)
                }
            },
        }
    }

    /// Login: checks the credentials and, on success, builds the claims a
    /// token for this user carries — their id, their role, and an expiry
    /// two hours from now.
    pub fn login(&self, user_data: &UserData, now: u64) -> (r: Result<Claims, LedgerError>)
        requires
            self.wf(),
            now + TOKEN_LIFETIME_SECS <= u64::MAX,
        ensures
            ({
                let taken = self@.name_taken(user_data.username@);
                let idx = self@.user_index_of(user_data.username@);
                match r {
                    Ok(c) => {
                        &&& taken
                        &&& bcrypt_accepts(user_data.password@, self@.users[idx].password_hash)
                        &&& c.sub as int == self@.users[idx].id
                        &&& c.exp == now + TOKEN_LIFETIME_SECS
                        &&& c.role == self@.users[idx].role
                    },
                    Err(e) => {
                        &&& e == LedgerError::Unauthorized
                        &&& taken ==> !bcrypt_accepts(
                            user_data.password@,
                            self@.users[idx].password_hash,
                        )
                    },
                }
            }),
    {
        match self.verify_login(user_data) {
            Err(e) => Err(e),
            Ok(u) => Ok(Claims { sub: u.id, exp: now + TOKEN_LIFETIME_SECS, role: u.role }),
        }
    }

    /// Signup: hashes the password and creates a regular user with a
    /// zero-balance account. A taken username aborts with a `Storage`
    /// error, as does a hashing failure; a successful signup stores a hash
    /// that accepts the presented password, so a following login succeeds.
    pub fn signup(&mut self, user_data: &UserData) -> (r: Result<i32, LedgerError>)
        requires
            old(self).wf(),
            old(self).users@.len() < i32::MAX,
        ensures
            final(self).wf(),
            r is Err ==> r == Err::<i32, LedgerError>(LedgerError::Storage) && final(self)@ == old(
                self,
            )@,
            old(self)@.name_taken(user_data.username@) ==> r is Err,
            r is Ok ==> ({
                let h = final(self)@.users.last().password_hash;
                &&& !old(self)@.name_taken(user_data.username@)
                &&& bcrypt_accepts(user_data.password@, h)
                &&& final(self)@ == old(self)@.apply_signup(user_data.username@, h, Role::Regular)
                &&& r->Ok_0 == old(self)@.users.len() + 1
            }),
    {
        match bcrypt_hash(&user_data.password) {
            None => Err(LedgerError::Storage),
            Some(h) => self.create_user(&user_data.username, &h, Role::Regular),
        }
    }
}

} // verus!
