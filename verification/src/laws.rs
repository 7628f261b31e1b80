//! The service-wide laws of the ledger engine.
//!
//! Each law is stated over [`LedgerModel`]'s transition functions — the
//! very functions the executable operations' contracts are written
//! against — so what is proved here holds of every run of the engine:
//! conservation of money over arbitrary operation sequences, the
//! non-negativity of every balance, the zero-sum nature of transfers, the
//! atomicity of failed operations, and the authorization gate on the
//! supply-changing ones.

use vstd::prelude::*;

use crate::models::{LedgerError, Role};
use crate::state::{sum_balances, LedgerModel};

verus! {

/// One engine invocation, described abstractly: the request's inputs,
/// without regard to who carried them over the wire.
pub enum LedgerOp {
    Deposit { actor_id: int, actor_role: Role, username: Seq<char>, amount: int },
    Withdraw { actor_id: int, actor_role: Role, username: Seq<char>, amount: int },
    Transfer { sender_id: int, recipient_username: Seq<char>, amount: int },
    Signup { username: Seq<char>, password_hash: Seq<char>, role: Role },
}

impl LedgerModel {
    /// The state and reported result after one invocation.
    pub open spec fn step(self, op: LedgerOp) -> (LedgerModel, Result<(), LedgerError>) {
        match op {
            LedgerOp::Deposit { actor_id, actor_role, username, amount } => self.deposit_outcome(
                actor_id,
                actor_role,
                username,
                amount,
            ),
            LedgerOp::Withdraw { actor_id, actor_role, username, amount } => self
                .withdrawal_outcome(actor_id, actor_role, username, amount),
            LedgerOp::Transfer { sender_id, recipient_username, amount } => self.transfer_outcome(
                sender_id,
                recipient_username,
                amount,
            ),
            LedgerOp::Signup { username, password_hash, role } => self.signup_outcome(
                username,
                password_hash,
                role,
            ),
        }
    }

    /// The state after a whole sequence of invocations.
    pub open spec fn apply_ops(self, ops: Seq<LedgerOp>) -> LedgerModel
        decreases ops.len(),
    {
        if ops.len() == 0 {
            self
        } else {
            self.step(ops.first()).0.apply_ops(ops.drop_first())
        }
    }

    /// What one invocation adds to the money in circulation: the amount of
    /// a successful deposit, the negated amount of a successful
    /// withdrawal, and zero for a transfer, a signup, or any failed
    /// invocation.
    pub open spec fn supply_delta(self, op: LedgerOp) -> int {
        if self.step(op).1 is Ok {
            match op {
                LedgerOp::Deposit { amount, .. } => amount,
                LedgerOp::Withdraw { amount, .. } => -amount,
                LedgerOp::Transfer { .. } => 0,
                LedgerOp::Signup { .. } => 0,
            }
        } else {
            0
        }
    }

    /// The net amount a sequence of invocations injects into circulation.
    pub open spec fn net_injected(self, ops: Seq<LedgerOp>) -> int
        decreases ops.len(),
    {
        if ops.len() == 0 {
            0
        } else {
            self.supply_delta(ops.first()) + self.step(ops.first()).0.net_injected(
                ops.drop_first(),
            )
        }
    }
}

/// Every invocation carries a well-formed state to a well-formed state; in
/// particular the supply stays equal to the sum of all balances and every
/// balance stays non-negative.
pub proof fn lemma_step_wf(m: LedgerModel, op: LedgerOp)
    requires
        m.wf(),
    ensures
        m.step(op).0.wf(),
{
    match op {
        LedgerOp::Deposit { actor_id, actor_role, username, amount } => {
            if actor_role == Role::Accountant && amount > 0 && m.name_taken(username) {
                let t = m.user_index_of(username);
                assert(0 <= t < m.users.len() && m.users[t].username == username);
                m.lemma_apply_deposit_wf(actor_id, t, amount);
            }
        },
        LedgerOp::Withdraw { actor_id, actor_role, username, amount } => {
            if actor_role == Role::Accountant && amount > 0 && m.name_taken(username) {
                let t = m.user_index_of(username);
                assert(0 <= t < m.users.len() && m.users[t].username == username);
                if m.accounts[t].balance >= amount {
                    m.lemma_apply_withdrawal_wf(actor_id, t, amount);
                }
            }
        },
        LedgerOp::Transfer { sender_id, recipient_username, amount } => {
            if amount > 0 && m.has_account_of_user(sender_id) && m.name_taken(
                recipient_username,
            ) {
                let si = m.account_index_of_user(sender_id);
                let ri = m.user_index_of(recipient_username);
                assert(0 <= si < m.accounts.len() && m.accounts[si].user_id == sender_id);
                assert(0 <= ri < m.users.len() && m.users[ri].username == recipient_username);
                if m.accounts[si].balance >= amount {
                    m.lemma_apply_transfer_wf(si, ri, amount);
                }
            }
        },
        LedgerOp::Signup { username, password_hash, role } => {
            if !m.name_taken(username) {
                m.lemma_apply_signup_wf(username, password_hash, role);
            }
        },
    }
}

/// One invocation moves the supply by exactly its `supply_delta`.
pub proof fn lemma_step_supply(m: LedgerModel, op: LedgerOp)
    ensures
        m.step(op).0.total_supply == m.total_supply + m.supply_delta(op),
{
}

/// Conservation: after any sequence of invocations — and so after any
/// prefix of a longer one — the money in circulation equals the sum of
/// the initial balances plus the net amount injected: each successful
/// deposit adds its amount, each successful withdrawal removes its
/// amount, and transfers, signups and failed invocations add nothing.
pub proof fn lemma_conservation(init: LedgerModel, ops: Seq<LedgerOp>)
    requires
        init.wf(),
    ensures
        init.apply_ops(ops).wf(),
        init.apply_ops(ops).total_supply == sum_balances(init.accounts) + init.net_injected(ops),
        init.apply_ops(ops).total_supply == sum_balances(init.apply_ops(ops).accounts),
    decreases ops.len(),
{
    if ops.len() > 0 {
        let m1 = init.step(ops.first()).0;
        lemma_step_wf(init, ops.first());
        lemma_step_supply(init, ops.first());
        lemma_conservation(m1, ops.drop_first());
    }
}

/// Non-negativity, first half: in every well-formed — that is, every
/// reachable committed — state, every balance is at least zero.
pub proof fn lemma_balances_nonnegative(m: LedgerModel)
    requires
        m.wf(),
    ensures
        forall|k: int| 0 <= k < m.accounts.len() ==> (#[trigger] m.accounts[k]).balance >= 0,
{
}

/// Non-negativity, second half: a withdrawal that would drive the
/// target's balance below zero fails with `InsufficientFunds` and leaves
/// the state untouched.
pub proof fn lemma_withdrawal_overdraft_rejected(
    m: LedgerModel,
    actor_id: int,
    username: Seq<char>,
    amount: int,
)
    requires
        m.wf(),
        amount > 0,
        m.name_taken(username),
        m.accounts[m.user_index_of(username)].balance < amount,
    ensures
        m.withdrawal_outcome(actor_id, Role::Accountant, username, amount) == (
            m,
            Err::<(), LedgerError>(LedgerError::InsufficientFunds),
        ),
{
}

/// Non-negativity, second half, for transfers: a transfer of more than
/// the sender holds fails with `InsufficientFunds` and leaves the state
/// untouched.
pub proof fn lemma_transfer_overdraft_rejected(
    m: LedgerModel,
    sender_id: int,
    recipient_username: Seq<char>,
    amount: int,
)
    requires
        m.wf(),
        amount > 0,
        m.has_account_of_user(sender_id),
        m.name_taken(recipient_username),
        m.accounts[m.account_index_of_user(sender_id)].balance < amount,
    ensures
        m.transfer_outcome(sender_id, recipient_username, amount) == (
            m,
            Err::<(), LedgerError>(LedgerError::InsufficientFunds),
        ),
{
}

/// Transfer zero-sum: a committed transfer of amount `a` moves exactly
/// `a` from the sender's balance to the recipient's (a self-transfer
/// nets to no change), touches no other account, never moves the money
/// supply, and writes no audit entry.
pub proof fn lemma_transfer_zero_sum(
    m: LedgerModel,
    sender_id: int,
    recipient_username: Seq<char>,
    amount: int,
)
    requires
        m.wf(),
        m.transfer_outcome(sender_id, recipient_username, amount).1 is Ok,
    ensures
        ({
            let m2 = m.transfer_outcome(sender_id, recipient_username, amount).0;
            let si = m.account_index_of_user(sender_id);
            let ri = m.user_index_of(recipient_username);
            &&& m2.total_supply == m.total_supply
            &&& m2.audit_log == m.audit_log
            &&& m2.accounts.len() == m.accounts.len()
            &&& si != ri ==> m2.accounts[si].balance == m.accounts[si].balance - amount
            &&& si != ri ==> m2.accounts[ri].balance == m.accounts[ri].balance + amount
            &&& si == ri ==> m2.accounts[si].balance == m.accounts[si].balance
            &&& forall|k: int|
                0 <= k < m.accounts.len() && k != si && k != ri ==> m2.accounts[k] == m.accounts[k]
        }),
{
}

/// Atomicity: a failed invocation — whatever the error — leaves no trace:
/// no balance, no supply change, no ledger entry, no audit entry, no
/// counter tick.
pub proof fn lemma_atomicity(m: LedgerModel, op: LedgerOp)
    ensures
        m.step(op).1 is Err ==> m.step(op).0 == m,
{
}

/// Authorization gate: a deposit or withdrawal invoked with any role but
/// accountant fails with `Forbidden` and has no effect at all.
pub proof fn lemma_authorization_gate(
    m: LedgerModel,
    actor_id: int,
    actor_role: Role,
    username: Seq<char>,
    amount: int,
)
    requires
        actor_role != Role::Accountant,
    ensures
        m.deposit_outcome(actor_id, actor_role, username, amount) == (
            m,
            Err::<(), LedgerError>(LedgerError::Forbidden),
        ),
        m.withdrawal_outcome(actor_id, actor_role, username, amount) == (
            m,
            Err::<(), LedgerError>(LedgerError::Forbidden),
        ),
{
}

} // verus!
