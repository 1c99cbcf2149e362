//! Laws of the ledger, stated over the spec transition functions and proved
//! once and for all: the account well-formedness invariant is preserved by
//! every transaction, negative deposits never change a balance, a
//! dispute/resolve cycle round-trips, and a chargeback locks the account for
//! every later withdrawal.

use crate::account::{
    empty_account, spec_chargeback, spec_deposit, spec_dispute, spec_resolve, spec_step,
    spec_withdraw, AccountView, AuditRecord,
};
use crate::processor::{spec_account_state, spec_process, spec_process_one};
use crate::transactions::{ClientId, Transaction, TransactionDetail, TransactionId};
use vstd::prelude::*;

verus! {

/// Well-formedness of an account: balances in the scaled integer's range,
/// held funds never negative, and every recorded amount a representable
/// deposit (non-negative).
pub open spec fn account_inv(a: AccountView) -> bool {
    &&& i64::MIN <= a.available <= i64::MAX
    &&& 0 <= a.held <= i64::MAX
    &&& forall|t: TransactionId|
        #[trigger] a.deposited.contains_key(t) ==> 0 <= a.deposited[t] <= i64::MAX
    &&& forall|t: TransactionId|
        #[trigger] a.disputed.contains_key(t) ==> 0 <= a.disputed[t] <= i64::MAX
}

/// No transaction id is both disputable and disputed at once.
pub open spec fn distinct_maps(a: AccountView) -> bool {
    forall|t: TransactionId| #[trigger]
        a.deposited.contains_key(t) ==> !a.disputed.contains_key(t)
}

/// Well-formedness of a whole account map.
pub open spec fn accounts_inv(accounts: Map<ClientId, AccountView>) -> bool {
    forall|c: ClientId| accounts.contains_key(c) ==> account_inv(#[trigger] accounts[c])
}

/// A freshly created account is well formed with distinct maps.
pub proof fn lemma_empty_account_inv()
    ensures
        account_inv(empty_account()),
        distinct_maps(empty_account()),
{
}

/// Every single transaction keeps its account well formed: `held` stays
/// non-negative and in range, and recorded amounts stay non-negative.
pub proof fn lemma_step_preserves_inv(a: AccountView, tx: Transaction)
    requires
        account_inv(a),
    ensures
        account_inv(spec_step(a, tx).0),
{
    match tx.detail {
        TransactionDetail::Deposit { amount } => {},
        TransactionDetail::Withdrawal { amount } => {},
        TransactionDetail::Dispute { tx_id } => {
            if a.deposited.contains_key(tx_id) {
                assert(0 <= a.deposited[tx_id] <= i64::MAX);
            }
        },
        TransactionDetail::Resolve { tx_id } => {
            if a.disputed.contains_key(tx_id) {
                assert(0 <= a.disputed[tx_id] <= i64::MAX);
            }
        },
        TransactionDetail::ChargeBack { tx_id } => {
            if a.disputed.contains_key(tx_id) {
                assert(0 <= a.disputed[tx_id] <= i64::MAX);
            }
        },
    }
}

/// Every transaction except one keeps the disputable and disputed sets
/// disjoint. The exception is real: depositing again under a transaction id
/// that is currently under dispute re-records the id as disputable while the
/// dispute still holds it, so such a deposit is left out here.
pub proof fn lemma_step_preserves_distinct_maps(a: AccountView, tx: Transaction)
    requires
        distinct_maps(a),
        !(tx.detail matches TransactionDetail::Deposit { amount } && a.disputed.contains_key(
            tx.id,
        )),
    ensures
        distinct_maps(spec_step(a, tx).0),
{
}

/// Processing one transaction keeps every account of the map well formed.
pub proof fn lemma_process_one_preserves_inv(accounts: Map<ClientId, AccountView>, tx: Transaction)
    requires
        accounts_inv(accounts),
    ensures
        accounts_inv(spec_process_one(accounts, tx).0),
{
    lemma_step_preserves_inv(spec_account_state(accounts, tx.client_id), tx);
}

/// At any point in processing — after every prefix of the batch — every
/// account of the map is well formed.
pub proof fn lemma_process_preserves_inv(
    accounts: Map<ClientId, AccountView>,
    txs: Seq<Transaction>,
)
    requires
        accounts_inv(accounts),
    ensures
        accounts_inv(spec_process(accounts, txs).0),
    decreases txs.len(),
{
    if txs.len() > 0 {
        lemma_process_preserves_inv(accounts, txs.drop_last());
        lemma_process_one_preserves_inv(spec_process(accounts, txs.drop_last()).0, txs.last());
    }
}

/// Depositing a negative amount never changes the account and always yields
/// the negative-deposit record.
pub proof fn lemma_deposit_negative(a: AccountView, tx_id: TransactionId, amount: int)
    requires
        amount < 0,
    ensures
        spec_deposit(a, tx_id, amount) == (a, AuditRecord::CanNotDepositNegative),
{
}

/// Disputing and then resolving the same deposit id on a well-formed account
/// round-trips: the resolve is owed success, the account returns to exactly
/// its original state, and disputing again therefore repeats the first
/// dispute.
pub proof fn lemma_dispute_resolve_round_trip(a: AccountView, tx_id: TransactionId)
    requires
        account_inv(a),
        distinct_maps(a),
        spec_dispute(a, tx_id).1 == AuditRecord::Processed,
    ensures
        spec_resolve(spec_dispute(a, tx_id).0, tx_id).1 == AuditRecord::Processed,
        spec_resolve(spec_dispute(a, tx_id).0, tx_id).0 == a,
        spec_dispute(spec_resolve(spec_dispute(a, tx_id).0, tx_id).0, tx_id) == spec_dispute(
            a,
            tx_id,
        ),
{
    let d = spec_dispute(a, tx_id).0;
    assert(spec_resolve(d, tx_id).0 =~= a);
}

/// Disputing the same deposit id twice in a row, without an intervening
/// resolve, leaves the account unchanged and yields the not-found record the
/// second time.
pub proof fn lemma_dispute_twice_not_found(a: AccountView, tx_id: TransactionId)
    requires
        spec_dispute(a, tx_id).1 == AuditRecord::Processed,
    ensures
        spec_dispute(spec_dispute(a, tx_id).0, tx_id) == (
            spec_dispute(a, tx_id).0,
            AuditRecord::DisputedDepositNotFound,
        ),
{
}

/// A successful chargeback locks the account.
pub proof fn lemma_chargeback_locks(a: AccountView, tx_id: TransactionId)
    requires
        spec_chargeback(a, tx_id).1 == AuditRecord::Processed,
    ensures
        spec_chargeback(a, tx_id).0.locked,
{
}

/// No transaction ever unlocks an account: the lock is permanent for the run.
pub proof fn lemma_step_keeps_locked(a: AccountView, tx: Transaction)
    requires
        a.locked,
    ensures
        spec_step(a, tx).0.locked,
{
}

/// A locked account rejects every withdrawal of a non-negative amount with
/// the locked record, regardless of its available funds, and is unchanged.
pub proof fn lemma_withdraw_on_locked(a: AccountView, amount: int)
    requires
        a.locked,
        amount >= 0,
    ensures
        spec_withdraw(a, amount) == (a, AuditRecord::AccountLocked),
{
}

/// Once a client's account is locked, it is still locked after any further
/// batch of transactions: a chargeback's lock survives everything that
/// follows it.
pub proof fn lemma_process_keeps_locked(
    accounts: Map<ClientId, AccountView>,
    txs: Seq<Transaction>,
    client_id: ClientId,
)
    requires
        accounts.contains_key(client_id),
        accounts[client_id].locked,
    ensures
        spec_process(accounts, txs).0.contains_key(client_id),
        spec_process(accounts, txs).0[client_id].locked,
    decreases txs.len(),
{
    if txs.len() > 0 {
        lemma_process_keeps_locked(accounts, txs.drop_last(), client_id);
        let mid = spec_process(accounts, txs.drop_last()).0;
        let tx = txs.last();
        if tx.client_id == client_id {
            lemma_step_keeps_locked(spec_account_state(mid, client_id), tx);
        }
    }
}

/// The lock's permanence, end to end: after a successful chargeback on a
/// client's account and any batch of further transactions, a withdrawal of
/// any non-negative amount on that account yields the locked record and
/// changes nothing, however large the available funds are. (A negative
/// withdrawal amount is rejected as negative before the lock is even
/// consulted, so it is left out here.)
pub proof fn lemma_no_withdrawal_after_chargeback(
    accounts: Map<ClientId, AccountView>,
    client_id: ClientId,
    cb_tx_id: TransactionId,
    later: Seq<Transaction>,
    amount: int,
)
    requires
        accounts.contains_key(client_id),
        spec_chargeback(accounts[client_id], cb_tx_id).1 == AuditRecord::Processed,
        amount >= 0,
    ensures
        ({
            let after_cb = accounts.insert(
                client_id,
                spec_chargeback(accounts[client_id], cb_tx_id).0,
            );
            let m = spec_process(after_cb, later).0;
            spec_withdraw(m[client_id], amount) == (m[client_id], AuditRecord::AccountLocked)
        }),
{
    let after_cb = accounts.insert(client_id, spec_chargeback(accounts[client_id], cb_tx_id).0);
    lemma_chargeback_locks(accounts[client_id], cb_tx_id);
    lemma_process_keeps_locked(after_cb, later, client_id);
    lemma_withdraw_on_locked(spec_process(after_cb, later).0[client_id], amount);
}

} // verus!
