//! The ledger store and its transaction engine.
//!
//! [`Ledger`] holds the tables of the service — users, accounts, ledger
//! entries, audit entries, the money-supply singleton and the operation
//! counter — and offers the three atomic operations of the engine: deposit,
//! withdrawal and peer transfer, plus user creation. Each operation either
//! commits its whole effect or returns an error and leaves every table
//! untouched, exactly as [`crate::state::LedgerModel`]'s transition
//! functions describe.

use vstd::prelude::*;

use crate::models::{Account, AccountantData, AuditKind, AuditLogEntry, LedgerEntry, LedgerError,
    Role, TransactionData, User};
use crate::state::{AccountModel, AuditModel, EntryModel, LedgerModel, UserModel};

verus! {

impl View for User {
    type V = UserModel;

    open spec fn view(&self) -> UserModel {
        UserModel {
            id: self.id as int,
            username: self.username@,
            password_hash: self.password_hash@,
            role: self.role,
        }
    }
}

impl View for Account {
    type V = AccountModel;

    open spec fn view(&self) -> AccountModel {
        AccountModel { id: self.id as int, user_id: self.user_id as int, balance: self.balance as int }
    }
}

impl View for LedgerEntry {
    type V = EntryModel;

    open spec fn view(&self) -> EntryModel {
        EntryModel {
            sender_id: self.sender_id as int,
            recipient_id: self.recipient_id as int,
            amount: self.amount as int,
        }
    }
}

impl View for AuditLogEntry {
    type V = AuditModel;

    open spec fn view(&self) -> AuditModel {
        AuditModel {
            amount: self.amount as int,
            kind: self.kind,
            accountant_user_id: self.accountant_user_id as int,
        }
    }
}

/// The ledger store: the durable state of the service, owned by the
/// transaction engine.
pub struct Ledger {
    pub users: Vec<User>,
    pub accounts: Vec<Account>,
    pub transactions: Vec<LedgerEntry>,
    pub audit_log: Vec<AuditLogEntry>,
    pub total_supply: i64,
    pub transaction_count: u64,
}

impl View for Ledger {
    type V = LedgerModel;

    open spec fn view(&self) -> LedgerModel {
        LedgerModel {
            users: self.users@.map_values(|u: User| u@),
            accounts: self.accounts@.map_values(|a: Account| a@),
            transactions: self.transactions@.map_values(|t: LedgerEntry| t@),
            audit_log: self.audit_log@.map_values(|e: AuditLogEntry| e@),
            total_supply: self.total_supply as int,
            transaction_count: self.transaction_count as nat,
        }
    }
}

impl Ledger {
    /// Well-formedness of the store; see [`LedgerModel::wf`].
    pub open spec fn wf(&self) -> bool {
        self@.wf()
    }

    /// Opens an empty ledger: no users, no money in circulation.
    pub fn new() -> (r: Ledger)
        ensures
            r@ == LedgerModel::initial(),
            r.wf(),
    {
        let r = Ledger {
            users: Vec::new(),
            accounts: Vec::new(),
            transactions: Vec::new(),
            audit_log: Vec::new(),
            total_supply: 0,
            transaction_count: 0,
        };
        proof {
            assert(r@ =~= LedgerModel::initial());
        }
        r
    }

    /// Resolves a username to the position of its user row (and, by the
    /// one-account-per-user invariant, of its account row).
    pub(crate) fn find_user_index_by_name(&self, name: &String) -> (r: Option<usize>)
        requires
            self.wf(),
        ensures
            match r {
                Some(i) => {
                    &&& self@.name_taken(name@)
                    &&& i < self.users@.len()
                    &&& i as int == self@.user_index_of(name@)
                },
                None => !self@.name_taken(name@),
            },
    {
        let n = self.users.len();
        let mut i: usize = 0;
        while i < n
            invariant
                n == self.users@.len(),
                i <= n,
                self.wf(),
                forall|k: int| 0 <= k < i ==> self@.users[k].username != name@,
            decreases n - i,
        {
            if self.users[i].username == *name {
                proof {
                    self@.lemma_user_index_unique(name@, i as int);
                }
                return Some(i);
            }
            i = i + 1;
        }
        assert(forall|k: int| 0 <= k < self@.users.len() ==> self@.users[k].username != name@);
        None
    }

    /// Resolves a user id to the position of their account row.
    pub(crate) fn find_account_index_by_user(&self, user_id: i32) -> (r: Option<usize>)
        requires
            self.wf(),
        ensures
            match r {
                Some(i) => {
                    &&& self@.has_account_of_user(user_id as int)
                    &&& i < self.accounts@.len()
                    &&& i as int == self@.account_index_of_user(user_id as int)
                },
                None => !self@.has_account_of_user(user_id as int),
            },
    {
        let n = self.accounts.len();
        let mut i: usize = 0;
        while i < n
            invariant
                n == self.accounts@.len(),
                i <= n,
                self.wf(),
                forall|k: int| 0 <= k < i ==> self@.accounts[k].user_id != user_id as int,
            decreases n - i,
        {
            if self.accounts[i].user_id == user_id {
                proof {
                    self@.lemma_account_index_unique(user_id as int, i as int);
                }
                return Some(i);
            }
            i = i + 1;
        }
        assert(forall|k: int|
            0 <= k < self@.accounts.len() ==> self@.accounts[k].user_id != user_id as int);
        None
    }

    /// The balance of the named user's account — a fixed-point decimal in
    /// hundredths — or `None` for an unknown name.
    pub fn balance_of(&self, username: &String) -> (r: Option<i64>)
        requires
            self.wf(),
        ensures
            r is Some <==> self@.name_taken(username@),
            r is Some ==> r->Some_0 as int == self@.accounts[self@.user_index_of(
                username@,
            )].balance,
    {
        match self.find_user_index_by_name(username) {
            None => None,
            Some(i) => Some(self.accounts[i].balance),
        }
    }

    /// Applies `balance += delta` to one account row, inside the caller's
    /// unit of work. The caller has already validated that the resulting
    /// balance is representable; the non-negativity check belongs to the
    /// caller too and must sit in the same unit of work.
    fn adjust_balance(&mut self, idx: usize, delta: i64)
        requires
            idx < old(self).accounts@.len(),
            i64::MIN <= old(self)@.accounts[idx as int].balance + delta <= i64::MAX,
        ensures
            final(self)@.accounts == old(self)@.accounts.update(
                idx as int,
                (AccountModel {
                    id: old(self)@.accounts[idx as int].id,
                    user_id: old(self)@.accounts[idx as int].user_id,
                    balance: old(self)@.accounts[idx as int].balance + delta,
                }),
            ),
            final(self)@.users == old(self)@.users,
            final(self)@.transactions == old(self)@.transactions,
            final(self)@.audit_log == old(self)@.audit_log,
            final(self)@.total_supply == old(self)@.total_supply,
            final(self)@.transaction_count == old(self)@.transaction_count,
    {
        let id = self.accounts[idx].id;
        let user_id = self.accounts[idx].user_id;
        let balance = self.accounts[idx].balance;
        self.accounts[idx] = Account { id, user_id, balance: balance + delta };
        proof {
            assert(self@.accounts =~= old(self)@.accounts.update(
                idx as int,
                AccountModel {
                    id: old(self)@.accounts[idx as int].id,
                    user_id: old(self)@.accounts[idx as int].user_id,
                    balance: old(self)@.accounts[idx as int].balance + delta,
                },
            ));
        }
    }

    /// Appends one immutable ledger entry and advances the operation
    /// counter, inside the caller's unit of work.
    fn record(&mut self, sender_id: i32, recipient_id: i32, amount: i64)
        requires
            amount > 0,
            old(self).transaction_count < u64::MAX,
        ensures
            final(self)@.transactions == old(self)@.transactions.push(
                (EntryModel {
                    sender_id: sender_id as int,
                    recipient_id: recipient_id as int,
                    amount: amount as int,
                }),
            ),
            final(self)@.transaction_count == old(self)@.transaction_count + 1,
            final(self)@.users == old(self)@.users,
            final(self)@.accounts == old(self)@.accounts,
            final(self)@.audit_log == old(self)@.audit_log,
            final(self)@.total_supply == old(self)@.total_supply,
    {
        self.transactions.push(LedgerEntry { sender_id, recipient_id, amount });
        self.transaction_count = self.transaction_count + 1;
        proof {
            assert(self@.transactions =~= old(self)@.transactions.push(
                EntryModel {
                    sender_id: sender_id as int,
                    recipient_id: recipient_id as int,
                    amount: amount as int,
                },
            ));
        }
    }

    /// Appends one immutable audit entry describing a privileged operation,
    /// inside the caller's unit of work.
    fn log_privileged_op(&mut self, amount: i64, kind: AuditKind, actor_user_id: i32)
        requires
            amount > 0,
        ensures
            final(self)@.audit_log == old(self)@.audit_log.push(
                (AuditModel {
                    amount: amount as int,
                    kind: kind,
                    accountant_user_id: actor_user_id as int,
                }),
            ),
            final(self)@.users == old(self)@.users,
            final(self)@.accounts == old(self)@.accounts,
            final(self)@.transactions == old(self)@.transactions,
            final(self)@.total_supply == old(self)@.total_supply,
            final(self)@.transaction_count == old(self)@.transaction_count,
    {
        self.audit_log.push(AuditLogEntry { amount, kind, accountant_user_id: actor_user_id });
        proof {
            assert(self@.audit_log =~= old(self)@.audit_log.push(
                AuditModel {
                    amount: amount as int,
                    kind: kind,
                    accountant_user_id: actor_user_id as int,
                },
            ));
        }
    }

    /// Applies `total_amount += delta` to the money-supply singleton,
    /// inside the caller's unit of work: positive for deposits, negative
    /// for withdrawals.
    fn adjust_supply(&mut self, delta: i64)
        requires
            i64::MIN <= old(self).total_supply + delta <= i64::MAX,
        ensures
            final(self)@.total_supply == old(self)@.total_supply + delta,
            final(self)@.users == old(self)@.users,
            final(self)@.accounts == old(self)@.accounts,
            final(self)@.transactions == old(self)@.transactions,
            final(self)@.audit_log == old(self)@.audit_log,
            final(self)@.transaction_count == old(self)@.transaction_count,
    {
        self.total_supply = self.total_supply + delta;
    }

    /// The deposit unit of work: resolves the target by username, credits
    /// the amount to their account, records one ledger entry, grows the
    /// money supply, appends one audit entry and advances the operation
    /// counter — all or nothing. The caller has already established the
    /// accountant role.
    pub fn process_deposit(&mut self, accountant_id: i32, data: &AccountantData) -> (r: Result<
        (),
        LedgerError,
    >)
        requires
            old(self).wf(),
            old(self)@.total_supply + data.amount <= i64::MAX,
            old(self).transaction_count < u64::MAX,
        ensures
            final(self).wf(),
            ({
                let (m, res) = old(self)@.deposit_outcome(
                    accountant_id as int,
                    Role::Accountant,
                    data.username@,
                    data.amount as int,
                );
                final(self)@ == m && r == res
            }),
    {
        if data.amount <= 0 {
            return Err(LedgerError::InvalidAmount);
        }
        match self.find_user_index_by_name(&data.username) {
            None => Err(LedgerError::NotFound),
            Some(i) => {
                let ghost m0 = self@;
                let recipient_id = self.users[i].id;
                proof {
                    crate::state::lemma_balance_le_sum(m0.accounts, i as int);
                    crate::state::lemma_sum_nonneg(m0.accounts);
                }
                self.adjust_balance(i, data.amount);
                self.record(accountant_id, recipient_id, data.amount);
                self.adjust_supply(data.amount);
                self.log_privileged_op(data.amount, AuditKind::Deposit, accountant_id);
                proof {
                    let m2 = m0.apply_deposit(accountant_id as int, i as int, data.amount as int);
                    assert(self@ == m2);
                    m0.lemma_apply_deposit_wf(accountant_id as int, i as int, data.amount as int);
                }
                Ok(())
            },
        }
    }

    /// Deposit: an accountant injects money into circulation, crediting a
    /// user's account. Fails with `Forbidden` for any other role, with
    /// `InvalidAmount` for a non-positive amount, and with `NotFound` for
    /// an unknown username; a failed request has no effect at all.
    pub fn deposit(&mut self, actor_id: i32, actor_role: Role, data: &AccountantData) -> (r: Result<
        (),
        LedgerError,
    >)
        requires
            old(self).wf(),
            old(self)@.total_supply + data.amount <= i64::MAX,
            old(self).transaction_count < u64::MAX,
        ensures
            final(self).wf(),
            ({
                let (m, res) = old(self)@.deposit_outcome(
                    actor_id as int,
                    actor_role,
                    data.username@,
                    data.amount as int,
                );
                final(self)@ == m && r == res
            }),
    {
        if actor_role != Role::Accountant {
            return Err(LedgerError::Forbidden);
        }
        self.process_deposit(actor_id, data)
    }

    /// The withdrawal unit of work: the mirror image of a deposit, with an
    /// added funds check before anything moves. The caller has already
    /// established the accountant role.
    pub fn process_withdrawal(&mut self, accountant_id: i32, data: &AccountantData) -> (r: Result<
        (),
        LedgerError,
    >)
        requires
            old(self).wf(),
            old(self).transaction_count < u64::MAX,
        ensures
            final(self).wf(),
            ({
                let (m, res) = old(self)@.withdrawal_outcome(
                    accountant_id as int,
                    Role::Accountant,
                    data.username@,
                    data.amount as int,
                );
                final(self)@ == m && r == res
            }),
    {
        if data.amount <= 0 {
            return Err(LedgerError::InvalidAmount);
        }
        match self.find_user_index_by_name(&data.username) {
            None => Err(LedgerError::NotFound),
            Some(i) => {
                if self.accounts[i].balance < data.amount {
                    return Err(LedgerError::InsufficientFunds);
                }
                let ghost m0 = self@;
                let sender_id = self.users[i].id;
                proof {
                    crate::state::lemma_balance_le_sum(m0.accounts, i as int);
                    crate::state::lemma_sum_nonneg(m0.accounts);
                }
                self.adjust_balance(i, -data.amount);
                self.record(sender_id, accountant_id, data.amount);
                self.adjust_supply(-data.amount);
                self.log_privileged_op(data.amount, AuditKind::Withdrawal, accountant_id);
                proof {
                    let m2 = m0.apply_withdrawal(accountant_id as int, i as int, data.amount as int);
                    assert(self@ == m2);
                    m0.lemma_apply_withdrawal_wf(accountant_id as int, i as int, data.amount as int);
                }
                Ok(())
            },
        }
    }

    /// Withdraw: an accountant removes money from circulation, debiting a
    /// user's account. Fails with `Forbidden` for any other role, with
    /// `InvalidAmount` for a non-positive amount, with `NotFound` for an
    /// unknown username, and with `InsufficientFunds` when the account
    /// holds less than the amount; a failed request has no effect at all.
    pub fn withdraw(&mut self, actor_id: i32, actor_role: Role, data: &AccountantData) -> (r:
        Result<(), LedgerError>)
        requires
            old(self).wf(),
            old(self).transaction_count < u64::MAX,
        ensures
            final(self).wf(),
            ({
                let (m, res) = old(self)@.withdrawal_outcome(
                    actor_id as int,
                    actor_role,
                    data.username@,
                    data.amount as int,
                );
                final(self)@ == m && r == res
            }),
    {
        if actor_role != Role::Accountant {
            return Err(LedgerError::Forbidden);
        }
        self.process_withdrawal(actor_id, data)
    }

    /// The transfer unit of work: resolves the sender's account by user id
    /// and the recipient's by username, checks the sender's funds, then
    /// moves the amount between the two balances and records one ledger
    /// entry — all or nothing. The money supply and the audit log are
    /// never touched.
    pub fn process_transfer(
        &mut self,
        sender_user_id: i32,
        transaction_data: &TransactionData,
    ) -> (r: Result<(), LedgerError>)
        requires
            old(self).wf(),
            old(self).transaction_count < u64::MAX,
        ensures
            final(self).wf(),
            ({
                let (m, res) = old(self)@.transfer_outcome(
                    sender_user_id as int,
                    transaction_data.recipient_username@,
                    transaction_data.amount as int,
                );
                final(self)@ == m && r == res
            }),
    {
        if transaction_data.amount <= 0 {
            return Err(LedgerError::InvalidAmount);
        }
        let si = match self.find_account_index_by_user(sender_user_id) {
            None => { return Err(LedgerError::NotFound); },
            Some(s) => s,
        };
        let ri = match self.find_user_index_by_name(&transaction_data.recipient_username) {
            None => { return Err(LedgerError::NotFound); },
            Some(r_) => r_,
        };
        if self.accounts[si].balance < transaction_data.amount {
            return Err(LedgerError::InsufficientFunds);
        }
        let ghost m0 = self@;
        let sender_account_id = self.accounts[si].id;
        let recipient_account_id = self.accounts[ri].id;
        proof {
            crate::state::lemma_sum_nonneg(m0.accounts);
            if si != ri {
                crate::state::lemma_two_balances_le_sum(m0.accounts, ri as int, si as int);
            }
        }
        self.adjust_balance(si, -transaction_data.amount);
        proof {
            assert(self.accounts@.len() == self@.accounts.len());
            assert(self@.accounts.len() == m0.accounts.len());
        }
        self.adjust_balance(ri, transaction_data.amount);
        self.record(sender_account_id, recipient_account_id, transaction_data.amount);
        proof {
            let m2 = m0.apply_transfer(si as int, ri as int, transaction_data.amount as int);
            assert(self@ == m2);
            m0.lemma_apply_transfer_wf(si as int, ri as int, transaction_data.amount as int);
        }
        Ok(())
    }

    /// Transfer: a user sends money from their own account to another
    /// user's. Fails with `InvalidAmount` for a non-positive amount, with
    /// `NotFound` when the sender has no account or the recipient name is
    /// unknown, and with `InsufficientFunds` when the sender's balance is
    /// too small; a failed request has no effect at all.
    pub fn transfer(&mut self, sender_id: i32, transaction_data: &TransactionData) -> (r: Result<
        (),
        LedgerError,
    >)
        requires
            old(self).wf(),
            old(self).transaction_count < u64::MAX,
        ensures
            final(self).wf(),
            ({
                let (m, res) = old(self)@.transfer_outcome(
                    sender_id as int,
                    transaction_data.recipient_username@,
                    transaction_data.amount as int,
                );
                final(self)@ == m && r == res
            }),
    {
        if transaction_data.amount <= 0 {
            return Err(LedgerError::InvalidAmount);
        }
        self.process_transfer(sender_id, transaction_data)
    }

    /// Creates a user with the given credentials and role, together with
    /// their account at balance zero, and returns the new user id. A taken
    /// username aborts the unit of work with a `Storage` error, as the
    /// store's uniqueness constraint would.
    pub fn create_user(&mut self, username: &String, password_hash: &String, role: Role) -> (r:
        Result<i32, LedgerError>)
        requires
            old(self).wf(),
            old(self).users@.len() < i32::MAX,
        ensures
            final(self).wf(),
            ({
                let (m, res) = old(self)@.signup_outcome(username@, password_hash@, role);
                final(self)@ == m && (r is Ok <==> res is Ok)
            }),
            r is Ok ==> r->Ok_0 == old(self)@.users.len() + 1,
            r is Err ==> r == Err::<i32, LedgerError>(LedgerError::Storage),
    {
        match self.find_user_index_by_name(username) {
            Some(_) => Err(LedgerError::Storage),
            None => {
                let ghost m0 = self@;
                let id = (self.users.len() as i32) + 1;
                self.users.push(
                    User {
                        id,
                        username: username.clone(),
                        password_hash: password_hash.clone(),
                        role,
                    },
                );
                self.accounts.push(Account { id, user_id: id, balance: 0 });
                proof {
                    let m2 = m0.apply_signup(username@, password_hash@, role);
                    assert(self@.users =~= m2.users);
                    assert(self@.accounts =~= m2.accounts);
                    assert(self@ == m2);
                    m0.lemma_apply_signup_wf(username@, password_hash@, role);
                }
                Ok(id)
            },
        }
    }
}

} // verus!
