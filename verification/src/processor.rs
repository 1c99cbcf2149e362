//! The ledger processor: routes each transaction of an ordered batch to the
//! owning account (creating it on first sight), applies it, and returns one
//! audit record per transaction, in input order. The meaning of a whole batch
//! is the fold `spec_process` of the per-transaction step.

use crate::account::{empty_account, spec_step, Account, AccountView, AuditRecord};
use crate::transactions::{ClientId, Transaction, TransactionDetail};
use std::collections::HashMap;
use vstd::prelude::*;

verus! {

broadcast use vstd::std_specs::hash::group_hash_axioms;

/// Owns every account for the duration of a run; nothing else mutates them.
pub struct Processor {
    pub accounts: HashMap<ClientId, Account>,
}

impl View for Processor {
    type V = Map<ClientId, AccountView>;

    open spec fn view(&self) -> Map<ClientId, AccountView> {
        self.accounts@.map_values(|a: Account| a@)
    }
}

/// The state of the client's account, or a fresh account where none exists
/// yet (accounts are created lazily on first reference).
pub open spec fn spec_account_state(
    accounts: Map<ClientId, AccountView>,
    client_id: ClientId,
) -> AccountView {
    if accounts.contains_key(client_id) {
        accounts[client_id]
    } else {
        empty_account()
    }
}

/// What processing one transaction does to the account map: the owning
/// account (fresh if unseen) takes one `spec_step`, and the step's audit
/// record is emitted. No other account changes.
pub open spec fn spec_process_one(
    accounts: Map<ClientId, AccountView>,
    tx: Transaction,
) -> (Map<ClientId, AccountView>, AuditRecord) {
    let stepped = spec_step(spec_account_state(accounts, tx.client_id), tx);
    (accounts.insert(tx.client_id, stepped.0), stepped.1)
}

/// What processing an ordered batch does: the transactions are applied
/// strictly in order, each yielding exactly one audit record.
pub open spec fn spec_process(
    accounts: Map<ClientId, AccountView>,
    txs: Seq<Transaction>,
) -> (Map<ClientId, AccountView>, Seq<AuditRecord>)
    decreases txs.len(),
{
    if txs.len() == 0 {
        (accounts, Seq::empty())
    } else {
        let prefix = spec_process(accounts, txs.drop_last());
        let last = spec_process_one(prefix.0, txs.last());
        (last.0, prefix.1.push(last.1))
    }
}

impl Processor {
    /// Process the transactions in input order and return the audit record
    /// of each; follows `spec_process` exactly.
    pub fn process(&mut self, transactions: &Vec<Transaction>) -> (r: Vec<AuditRecord>)
        ensures
            r@.len() == transactions@.len(),
            final(self)@ == spec_process(old(self)@, transactions@).0,
            r@ == spec_process(old(self)@, transactions@).1,
    {
        let mut audit: Vec<AuditRecord> = Vec::new();
        let n = transactions.len();
        let mut i: usize = 0;
        while i < n
            invariant
                n == transactions@.len(),
                i <= n,
                audit@.len() == i,
                self@ == spec_process(old(self)@, transactions@.take(i as int)).0,
                audit@ == spec_process(old(self)@, transactions@.take(i as int)).1,
            decreases n - i,
        {
            let rec = self.process_transaction(&transactions[i]);
            audit.push(rec);
            proof {
                assert(transactions@.take(i + 1) =~= transactions@.take(i as int).push(
                    transactions@[i as int],
                ));
                assert(transactions@.take(i + 1).drop_last() =~= transactions@.take(i as int));
            }
            i = i + 1;
        }
        proof {
            assert(transactions@.take(n as int) =~= transactions@);
        }
        audit
    }

    /// Process a single transaction against the owning account, creating the
    /// account on first sight; follows `spec_process_one` exactly.
    fn process_transaction(&mut self, tx: &Transaction) -> (r: AuditRecord)
        ensures
            final(self)@ == spec_process_one(old(self)@, *tx).0,
            r == spec_process_one(old(self)@, *tx).1,
    {
        let client_id = tx.client_id;
        let mut acct = match self.accounts.remove(&client_id) {
            Some(a) => a,
            None => Account::default(),
        };
        let rec = match tx.detail {
            TransactionDetail::Deposit { amount } => acct.deposit(tx.id, amount),
            TransactionDetail::Withdrawal { amount } => acct.withdraw(amount),
            TransactionDetail::Dispute { tx_id } => acct.dispute(tx_id),
            TransactionDetail::Resolve { tx_id } => acct.resolve(tx_id),
            TransactionDetail::ChargeBack { tx_id } => acct.chargeback(tx_id),
        };
        self.accounts.insert(client_id, acct);
        proof {
            assert(self@ =~= spec_process_one(old(self)@, *tx).0);
        }
        rec
    }
}

impl Default for Processor {
    /// A processor that has seen no client yet.
    fn default() -> (r: Processor)
        ensures
            r@ == Map::<ClientId, AccountView>::empty(),
    {
        let r = Processor { accounts: HashMap::new() };
        proof {
            assert(r@ =~= Map::<ClientId, AccountView>::empty());
        }
        r
    }
}

} // verus!
