//! The mathematical model of the ledger state.
//!
//! [`LedgerModel`] is the abstraction of the whole store — users, accounts,
//! ledger entries, audit entries, the money-supply total and the operation
//! counter — over unbounded integers and sequences. The executable ledger's
//! view is a `LedgerModel`, every operation's contract is stated as a pure
//! transition on it, and the service-wide laws (conservation, non-negativity,
//! atomicity) are proved about these transitions.

use vstd::prelude::*;

use crate::models::{AuditKind, LedgerError, Role};

verus! {

/// The abstraction of one user row.
pub struct UserModel {
    pub id: int,
    pub username: Seq<char>,
    pub password_hash: Seq<char>,
    pub role: Role,
}

/// The abstraction of one account row.
pub struct AccountModel {
    pub id: int,
    pub user_id: int,
    pub balance: int,
}

/// The abstraction of one ledger entry.
pub struct EntryModel {
    pub sender_id: int,
    pub recipient_id: int,
    pub amount: int,
}

/// The abstraction of one audit entry.
pub struct AuditModel {
    pub amount: int,
    pub kind: AuditKind,
    pub accountant_user_id: int,
}

/// The abstraction of the whole ledger store.
#[verifier::ext_equal]
pub struct LedgerModel {
    pub users: Seq<UserModel>,
    pub accounts: Seq<AccountModel>,
    pub transactions: Seq<EntryModel>,
    pub audit_log: Seq<AuditModel>,
    pub total_supply: int,
    pub transaction_count: nat,
}

/// The sum of all account balances: the money in circulation.
pub open spec fn sum_balances(s: Seq<AccountModel>) -> int
    decreases s.len(),
{
    if s.len() == 0 {
        0
    } else {
        sum_balances(s.drop_last()) + s.last().balance
    }
}

impl LedgerModel {
    /// The state of a freshly opened ledger: no users, no accounts, no
    /// recorded operations, and no money in circulation.
    pub open spec fn initial() -> LedgerModel {
        LedgerModel {
            users: Seq::empty(),
            accounts: Seq::empty(),
            transactions: Seq::empty(),
            audit_log: Seq::empty(),
            total_supply: 0,
            transaction_count: 0,
        }
    }

    /// Well-formedness of a committed ledger state.
    ///
    /// Users and accounts are in one-to-one correspondence, position `i`
    /// holding the user and account with id `i + 1` (ids are assigned in
    /// order of signup and never reused). Usernames are unique, every
    /// balance is non-negative, every recorded amount is positive, the
    /// money supply equals the sum of all balances (the conservation law),
    /// and the operation counter equals the number of ledger entries.
    pub open spec fn wf(self) -> bool {
        &&& self.accounts.len() == self.users.len()
        &&& forall|i: int|
            0 <= i < self.users.len() ==> (#[trigger] self.users[i]).id == i + 1
        &&& forall|i: int|
            0 <= i < self.accounts.len() ==> (#[trigger] self.accounts[i]).id == i + 1
        &&& forall|i: int|
            0 <= i < self.accounts.len() ==> (#[trigger] self.accounts[i]).user_id == i + 1
        &&& forall|i: int, j: int|
            0 <= i < j < self.users.len() ==> self.users[i].username != self.users[j].username
        &&& forall|i: int|
            0 <= i < self.accounts.len() ==> (#[trigger] self.accounts[i]).balance >= 0
        &&& self.total_supply == sum_balances(self.accounts)
        &&& forall|i: int|
            0 <= i < self.transactions.len() ==> (#[trigger] self.transactions[i]).amount > 0
        &&& forall|i: int|
            0 <= i < self.audit_log.len() ==> (#[trigger] self.audit_log[i]).amount > 0
        &&& self.transaction_count == self.transactions.len()
    }

    /// Whether some user bears this name.
    pub open spec fn name_taken(self, name: Seq<char>) -> bool {
        exists|i: int| 0 <= i < self.users.len() && self.users[i].username == name
    }

    /// The position of the user bearing this name (meaningful when
    /// `name_taken` holds; unique under `wf`).
    pub open spec fn user_index_of(self, name: Seq<char>) -> int {
        choose|i: int| 0 <= i < self.users.len() && self.users[i].username == name
    }

    /// Whether some account belongs to this user id.
    pub open spec fn has_account_of_user(self, user_id: int) -> bool {
        exists|i: int| 0 <= i < self.accounts.len() && self.accounts[i].user_id == user_id
    }

    /// The position of the account belonging to this user id (meaningful
    /// when `has_account_of_user` holds; unique under `wf`).
    pub open spec fn account_index_of_user(self, user_id: int) -> int {
        choose|i: int| 0 <= i < self.accounts.len() && self.accounts[i].user_id == user_id
    }

    /// The committed effect of a successful deposit: the target's balance
    /// and the money supply grow by the amount, one ledger entry and one
    /// audit entry are appended, and the operation counter advances.
    pub open spec fn apply_deposit(self, actor_id: int, target: int, amount: int) -> LedgerModel {
        LedgerModel {
            users: self.users,
            accounts: self.accounts.update(
                target,
                AccountModel {
                    id: self.accounts[target].id,
                    user_id: self.accounts[target].user_id,
                    balance: self.accounts[target].balance + amount,
                },
            ),
            transactions: self.transactions.push(
                EntryModel {
                    sender_id: actor_id,
                    recipient_id: self.users[target].id,
                    amount: amount,
                },
            ),
            audit_log: self.audit_log.push(
                AuditModel { amount: amount, kind: AuditKind::Deposit, accountant_user_id: actor_id },
            ),
            total_supply: self.total_supply + amount,
            transaction_count: self.transaction_count + 1,
        }
    }

    /// The full outcome of a deposit request: the state after the unit of
    /// work and the reported result. A failed request leaves the state
    /// untouched.
    pub open spec fn deposit_outcome(
        self,
        actor_id: int,
        actor_role: Role,
        name: Seq<char>,
        amount: int,
    ) -> (LedgerModel, Result<(), LedgerError>) {
        if actor_role != Role::Accountant {
            (self, Err(LedgerError::Forbidden))
        } else if amount <= 0 {
            (self, Err(LedgerError::InvalidAmount))
        } else if !self.name_taken(name) {
            (self, Err(LedgerError::NotFound))
        } else {
            (self.apply_deposit(actor_id, self.user_index_of(name), amount), Ok(()))
        }
    }

    /// The committed effect of a successful withdrawal: the mirror image of
    /// a deposit, with the target as sender and the accountant as recipient.
    pub open spec fn apply_withdrawal(self, actor_id: int, target: int, amount: int) -> LedgerModel {
        LedgerModel {
            users: self.users,
            accounts: self.accounts.update(
                target,
                AccountModel {
                    id: self.accounts[target].id,
                    user_id: self.accounts[target].user_id,
                    balance: self.accounts[target].balance - amount,
                },
            ),
            transactions: self.transactions.push(
                EntryModel {
                    sender_id: self.users[target].id,
                    recipient_id: actor_id,
                    amount: amount,
                },
            ),
            audit_log: self.audit_log.push(
                AuditModel {
                    amount: amount,
                    kind: AuditKind::Withdrawal,
                    accountant_user_id: actor_id,
                },
            ),
            total_supply: self.total_supply - amount,
            transaction_count: self.transaction_count + 1,
        }
    }

    /// The full outcome of a withdrawal request.
    pub open spec fn withdrawal_outcome(
        self,
        actor_id: int,
        actor_role: Role,
        name: Seq<char>,
        amount: int,
    ) -> (LedgerModel, Result<(), LedgerError>) {
        if actor_role != Role::Accountant {
            (self, Err(LedgerError::Forbidden))
        } else if amount <= 0 {
            (self, Err(LedgerError::InvalidAmount))
        } else if !self.name_taken(name) {
            (self, Err(LedgerError::NotFound))
        } else if self.accounts[self.user_index_of(name)].balance < amount {
            (self, Err(LedgerError::InsufficientFunds))
        } else {
            (self.apply_withdrawal(actor_id, self.user_index_of(name), amount), Ok(()))
        }
    }

    /// The committed effect of a successful peer transfer: the sender's
    /// balance shrinks and the recipient's grows by the amount (a transfer
    /// to oneself nets to no change), one ledger entry carrying the two
    /// account ids is appended, and the operation counter advances. The
    /// money supply and the audit log are untouched.
    pub open spec fn apply_transfer(self, sender: int, recipient: int, amount: int) -> LedgerModel {
        let debited = self.accounts.update(
            sender,
            AccountModel {
                id: self.accounts[sender].id,
                user_id: self.accounts[sender].user_id,
                balance: self.accounts[sender].balance - amount,
            },
        );
        LedgerModel {
            users: self.users,
            accounts: debited.update(
                recipient,
                AccountModel {
                    id: debited[recipient].id,
                    user_id: debited[recipient].user_id,
                    balance: debited[recipient].balance + amount,
                },
            ),
            transactions: self.transactions.push(
                EntryModel {
                    sender_id: self.accounts[sender].id,
                    recipient_id: self.accounts[recipient].id,
                    amount: amount,
                },
            ),
            audit_log: self.audit_log,
            total_supply: self.total_supply,
            transaction_count: self.transaction_count + 1,
        }
    }

    /// The full outcome of a transfer request.
    pub open spec fn transfer_outcome(
        self,
        sender_id: int,
        name: Seq<char>,
        amount: int,
    ) -> (LedgerModel, Result<(), LedgerError>) {
        if amount <= 0 {
            (self, Err(LedgerError::InvalidAmount))
        } else if !self.has_account_of_user(sender_id) {
            (self, Err(LedgerError::NotFound))
        } else if !self.name_taken(name) {
            (self, Err(LedgerError::NotFound))
        } else if self.accounts[self.account_index_of_user(sender_id)].balance < amount {
            (self, Err(LedgerError::InsufficientFunds))
        } else {
            (
                self.apply_transfer(
                    self.account_index_of_user(sender_id),
                    self.user_index_of(name),
                    amount,
                ),
                Ok(()),
            )
        }
    }

    /// The full outcome of creating a user. A taken username aborts the
    /// unit of work — surfaced, as any persistence fault would be, as a
    /// `Storage` error — and leaves the state untouched.
    pub open spec fn signup_outcome(
        self,
        name: Seq<char>,
        password_hash: Seq<char>,
        role: Role,
    ) -> (LedgerModel, Result<(), LedgerError>) {
        if self.name_taken(name) {
            (self, Err(LedgerError::Storage))
        } else {
            (self.apply_signup(name, password_hash, role), Ok(()))
        }
    }

    /// The committed effect of creating a user: one new user with the next
    /// id and a fresh account with balance zero. Nothing else moves.
    pub open spec fn apply_signup(
        self,
        name: Seq<char>,
        password_hash: Seq<char>,
        role: Role,
    ) -> LedgerModel {
        LedgerModel {
            users: self.users.push(
                UserModel {
                    id: self.users.len() + 1 as int,
                    username: name,
                    password_hash: password_hash,
                    role: role,
                },
            ),
            accounts: self.accounts.push(
                AccountModel {
                    id: self.accounts.len() + 1 as int,
                    user_id: self.accounts.len() + 1 as int,
                    balance: 0,
                },
            ),
            transactions: self.transactions,
            audit_log: self.audit_log,
            total_supply: self.total_supply,
            transaction_count: self.transaction_count,
        }
    }
}

/// Replacing one account changes the sum of balances by exactly the change
/// in that account's balance.
pub proof fn lemma_sum_update(s: Seq<AccountModel>, i: int, a: AccountModel)
    requires
        0 <= i < s.len(),
    ensures
        sum_balances(s.update(i, a)) == sum_balances(s) + a.balance - s[i].balance,
    decreases s.len(),
{
    if i == s.len() - 1 {
        assert(s.update(i, a).drop_last() =~= s.drop_last());
    } else {
        assert(s.update(i, a).drop_last() =~= s.drop_last().update(i, a));
        lemma_sum_update(s.drop_last(), i, a);
    }
}

/// Appending an account adds its balance to the sum.
pub proof fn lemma_sum_push(s: Seq<AccountModel>, a: AccountModel)
    ensures
        sum_balances(s.push(a)) == sum_balances(s) + a.balance,
{
    assert(s.push(a).drop_last() =~= s);
}

/// A sum of non-negative balances is non-negative.
pub proof fn lemma_sum_nonneg(s: Seq<AccountModel>)
    requires
        forall|k: int| 0 <= k < s.len() ==> (#[trigger] s[k]).balance >= 0,
    ensures
        sum_balances(s) >= 0,
    decreases s.len(),
{
    if s.len() > 0 {
        lemma_sum_nonneg(s.drop_last());
    }
}

/// When every balance is non-negative, no single balance exceeds the sum.
pub proof fn lemma_balance_le_sum(s: Seq<AccountModel>, i: int)
    requires
        forall|k: int| 0 <= k < s.len() ==> (#[trigger] s[k]).balance >= 0,
        0 <= i < s.len(),
    ensures
        s[i].balance <= sum_balances(s),
    decreases s.len(),
{
    if i == s.len() - 1 {
        lemma_sum_nonneg(s.drop_last());
    } else {
        lemma_balance_le_sum(s.drop_last(), i);
    }
}

/// When every balance is non-negative, no two distinct balances together
/// exceed the sum.
pub proof fn lemma_two_balances_le_sum(s: Seq<AccountModel>, i: int, j: int)
    requires
        forall|k: int| 0 <= k < s.len() ==> (#[trigger] s[k]).balance >= 0,
        0 <= i < s.len(),
        0 <= j < s.len(),
        i != j,
    ensures
        s[i].balance + s[j].balance <= sum_balances(s),
    decreases s.len(),
{
    if i == s.len() - 1 {
        lemma_balance_le_sum(s.drop_last(), j);
    } else if j == s.len() - 1 {
        lemma_balance_le_sum(s.drop_last(), i);
    } else {
        lemma_two_balances_le_sum(s.drop_last(), i, j);
    }
}

impl LedgerModel {
    /// Under well-formedness a name picks out exactly one user, so any
    /// position holding the name is `user_index_of` it.
    pub proof fn lemma_user_index_unique(self, name: Seq<char>, i: int)
        requires
            self.wf(),
            0 <= i < self.users.len(),
            self.users[i].username == name,
        ensures
            self.name_taken(name),
            self.user_index_of(name) == i,
    {
        let j = self.user_index_of(name);
        if i < j {
            assert(self.users[i].username != self.users[j].username);
        } else if j < i {
            assert(self.users[j].username != self.users[i].username);
        }
    }

    /// Under well-formedness a user id picks out exactly one account, so
    /// any position holding the id is `account_index_of_user` it.
    pub proof fn lemma_account_index_unique(self, user_id: int, i: int)
        requires
            self.wf(),
            0 <= i < self.accounts.len(),
            self.accounts[i].user_id == user_id,
        ensures
            self.has_account_of_user(user_id),
            self.account_index_of_user(user_id) == i,
    {
    }

    /// A committed deposit preserves well-formedness; in particular the
    /// conservation law survives, because the supply and the target's
    /// balance grow by the same amount.
    pub proof fn lemma_apply_deposit_wf(self, actor_id: int, target: int, amount: int)
        requires
            self.wf(),
            0 <= target < self.users.len(),
            amount > 0,
        ensures
            self.apply_deposit(actor_id, target, amount).wf(),
    {
        let m2 = self.apply_deposit(actor_id, target, amount);
        lemma_sum_update(self.accounts, target, m2.accounts[target]);
        assert forall|i: int|
            0 <= i < m2.transactions.len() implies (#[trigger] m2.transactions[i]).amount
            > 0 by {
            if i < self.transactions.len() {
                assert(self.transactions[i].amount > 0);
            }
        }
        assert forall|i: int|
            0 <= i < m2.audit_log.len() implies (#[trigger] m2.audit_log[i]).amount > 0 by {
            if i < self.audit_log.len() {
                assert(self.audit_log[i].amount > 0);
            }
        }
    }

    /// A committed withdrawal preserves well-formedness: the funds check
    /// keeps the target's balance non-negative, and the supply shrinks by
    /// exactly what the balance lost.
    pub proof fn lemma_apply_withdrawal_wf(self, actor_id: int, target: int, amount: int)
        requires
            self.wf(),
            0 <= target < self.users.len(),
            amount > 0,
            self.accounts[target].balance >= amount,
        ensures
            self.apply_withdrawal(actor_id, target, amount).wf(),
    {
        let m2 = self.apply_withdrawal(actor_id, target, amount);
        lemma_sum_update(self.accounts, target, m2.accounts[target]);
        assert forall|i: int|
            0 <= i < m2.transactions.len() implies (#[trigger] m2.transactions[i]).amount
            > 0 by {
            if i < self.transactions.len() {
                assert(self.transactions[i].amount > 0);
            }
        }
        assert forall|i: int|
            0 <= i < m2.audit_log.len() implies (#[trigger] m2.audit_log[i]).amount > 0 by {
            if i < self.audit_log.len() {
                assert(self.audit_log[i].amount > 0);
            }
        }
    }

    /// A committed transfer preserves well-formedness: what the sender's
    /// balance loses the recipient's gains (a self-transfer nets to zero),
    /// so the sum of balances — and with it the untouched supply — stands.
    pub proof fn lemma_apply_transfer_wf(self, sender: int, recipient: int, amount: int)
        requires
            self.wf(),
            0 <= sender < self.accounts.len(),
            0 <= recipient < self.accounts.len(),
            amount > 0,
            self.accounts[sender].balance >= amount,
        ensures
            self.apply_transfer(sender, recipient, amount).wf(),
    {
        let m2 = self.apply_transfer(sender, recipient, amount);
        let debited = self.accounts.update(
            sender,
            AccountModel {
                id: self.accounts[sender].id,
                user_id: self.accounts[sender].user_id,
                balance: self.accounts[sender].balance - amount,
            },
        );
        lemma_sum_update(self.accounts, sender, debited[sender]);
        lemma_sum_update(debited, recipient, m2.accounts[recipient]);
        assert forall|i: int|
            0 <= i < m2.transactions.len() implies (#[trigger] m2.transactions[i]).amount
            > 0 by {
            if i < self.transactions.len() {
                assert(self.transactions[i].amount > 0);
            }
        }
    }

    /// Creating a user with a fresh name preserves well-formedness: the new
    /// account opens empty, so the conservation law is untouched.
    pub proof fn lemma_apply_signup_wf(self, name: Seq<char>, password_hash: Seq<char>, role: Role)
        requires
            self.wf(),
            !self.name_taken(name),
        ensures
            self.apply_signup(name, password_hash, role).wf(),
    {
        let m2 = self.apply_signup(name, password_hash, role);
        lemma_sum_push(self.accounts, m2.accounts.last());
        assert forall|i: int, j: int|
            0 <= i < j < m2.users.len() implies m2.users[i].username
            != m2.users[j].username by {
            if j < self.users.len() {
                assert(self.users[i].username != self.users[j].username);
            } else {
                assert(m2.users[j].username == name);
                assert(!(0 <= i < self.users.len() && self.users[i].username == name));
            }
        }
    }
}

} // verus!
