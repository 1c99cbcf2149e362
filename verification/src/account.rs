//! Per-client account state and its operations. Each operation returns an
//! audit record; any record other than `Processed` means the operation had no
//! effect. The mathematical meaning of every operation is given by the
//! `spec_*` transition functions below, and each executable operation is
//! proved to follow its transition function exactly.

use crate::money::{fits_scaled, MoneyAmount};
use crate::transactions::{Transaction, TransactionDetail, TransactionId};
use std::collections::HashMap;
use vstd::prelude::*;

verus! {

broadcast use vstd::std_specs::hash::group_hash_axioms;

/// The outcome of processing one transaction.
#[derive(Debug, Clone, Copy, PartialEq, Eq, Structural)]
pub enum AuditRecord {
    Processed,
    CanNotDepositNegative,
    CanNotWithdrawNegative,
    NotEnoughMoneyToWithdraw,
    DisputedDepositNotFound,
    NotEnoughMoneyToRelease,
    NotEnoughMoneyToChargeBack,
    MoneyOverflow,
    MoneyUnderflow,
    DisputeNotFound,
    AccountLocked,
}

/// A client account: spendable and held balances, the permanent lock flag,
/// and the amounts of deposits that can still be disputed or are under
/// dispute. A transaction id is in at most one of the two maps at a time.
#[derive(Debug)]
pub struct Account {
    pub available: MoneyAmount,
    pub held: MoneyAmount,
    pub locked: bool,
    /// Amounts of deposits seen on this account and not currently disputed.
    pub deposited_amounts: HashMap<TransactionId, MoneyAmount>,
    /// Amounts of deposits currently under active dispute.
    pub disputed_amounts: HashMap<TransactionId, MoneyAmount>,
}

/// The mathematical state of an account: balances as unbounded integers and
/// the two deposit maps as mathematical maps of scaled amounts.
#[verifier::ext_equal]
pub ghost struct AccountView {
    pub available: int,
    pub held: int,
    pub locked: bool,
    pub deposited: Map<TransactionId, int>,
    pub disputed: Map<TransactionId, int>,
}

impl View for Account {
    type V = AccountView;

    open spec fn view(&self) -> AccountView {
        AccountView {
            available: self.available@,
            held: self.held@,
            locked: self.locked,
            deposited: self.deposited_amounts@.map_values(|m: MoneyAmount| m@),
            disputed: self.disputed_amounts@.map_values(|m: MoneyAmount| m@),
        }
    }
}

/// The state of a freshly created account: zero balances, unlocked, nothing
/// deposited or disputed.
pub open spec fn empty_account() -> AccountView {
    AccountView {
        available: 0,
        held: 0,
        locked: false,
        deposited: Map::empty(),
        disputed: Map::empty(),
    }
}

/// What depositing `amount` under `tx_id` does to an account. A negative
/// amount is rejected; a sum that leaves the scaled integer's range is
/// rejected; otherwise `available` grows by `amount` and the deposit is
/// recorded as disputable (overwriting a reused `tx_id`).
pub open spec fn spec_deposit(a: AccountView, tx_id: TransactionId, amount: int) -> (AccountView,
    AuditRecord) {
    if amount < 0 {
        (a, AuditRecord::CanNotDepositNegative)
    } else if !fits_scaled(a.available + amount) {
        (a, AuditRecord::MoneyOverflow)
    } else {
        (
            AccountView {
                available: a.available + amount,
                deposited: a.deposited.insert(tx_id, amount),
                ..a
            },
            AuditRecord::Processed,
        )
    }
}

/// What withdrawing `amount` does to an account. A negative amount, a locked
/// account, and insufficient available funds are rejected, in that order;
/// otherwise `available` shrinks by `amount`. The range check on the
/// difference mirrors the defensive check of the executable code; it cannot
/// fire once the earlier guards have passed.
pub open spec fn spec_withdraw(a: AccountView, amount: int) -> (AccountView, AuditRecord) {
    if amount < 0 {
        (a, AuditRecord::CanNotWithdrawNegative)
    } else if a.locked {
        (a, AuditRecord::AccountLocked)
    } else if a.available < amount {
        (a, AuditRecord::NotEnoughMoneyToWithdraw)
    } else if !fits_scaled(a.available - amount) {
        (a, AuditRecord::MoneyUnderflow)
    } else {
        (AccountView { available: a.available - amount, ..a }, AuditRecord::Processed)
    }
}

/// What disputing the deposit under `tx_id` does to an account. Only a
/// recorded, not-yet-disputed deposit can be disputed; its amount moves from
/// `available` to `held` and from the deposited map to the disputed map.
pub open spec fn spec_dispute(a: AccountView, tx_id: TransactionId) -> (AccountView, AuditRecord) {
    if !a.deposited.contains_key(tx_id) {
        (a, AuditRecord::DisputedDepositNotFound)
    } else {
        let amount = a.deposited[tx_id];
        if !fits_scaled(a.held + amount) {
            (a, AuditRecord::MoneyOverflow)
        } else if !fits_scaled(a.available - amount) {
            (a, AuditRecord::MoneyUnderflow)
        } else {
            (
                AccountView {
                    available: a.available - amount,
                    held: a.held + amount,
                    deposited: a.deposited.remove(tx_id),
                    disputed: a.disputed.insert(tx_id, amount),
                    ..a
                },
                AuditRecord::Processed,
            )
        }
    }
}

/// What resolving the dispute on `tx_id` does to an account. Only an active
/// dispute backed by enough held funds can be resolved; its amount moves back
/// from `held` to `available` and from the disputed map to the deposited map.
pub open spec fn spec_resolve(a: AccountView, tx_id: TransactionId) -> (AccountView, AuditRecord) {
    if !a.disputed.contains_key(tx_id) {
        (a, AuditRecord::DisputeNotFound)
    } else {
        let amount = a.disputed[tx_id];
        if a.held < amount {
            (a, AuditRecord::NotEnoughMoneyToRelease)
        } else if !fits_scaled(a.available + amount) {
            (a, AuditRecord::MoneyOverflow)
        } else if !fits_scaled(a.held - amount) {
            (a, AuditRecord::MoneyUnderflow)
        } else {
            (
                AccountView {
                    available: a.available + amount,
                    held: a.held - amount,
                    deposited: a.deposited.insert(tx_id, amount),
                    disputed: a.disputed.remove(tx_id),
                    ..a
                },
                AuditRecord::Processed,
            )
        }
    }
}

/// What charging back the dispute on `tx_id` does to an account. Only an
/// active dispute backed by enough held funds can be charged back; its amount
/// leaves `held` for good and the account is locked permanently.
pub open spec fn spec_chargeback(a: AccountView, tx_id: TransactionId) -> (AccountView,
    AuditRecord) {
    if !a.disputed.contains_key(tx_id) {
        (a, AuditRecord::DisputeNotFound)
    } else {
        let amount = a.disputed[tx_id];
        if a.held < amount {
            (a, AuditRecord::NotEnoughMoneyToChargeBack)
        } else if !fits_scaled(a.held - amount) {
            (a, AuditRecord::MoneyUnderflow)
        } else {
            (
                AccountView {
                    held: a.held - amount,
                    disputed: a.disputed.remove(tx_id),
                    locked: true,
                    ..a
                },
                AuditRecord::Processed,
            )
        }
    }
}

/// What one transaction does to the account it is addressed to.
pub open spec fn spec_step(a: AccountView, tx: Transaction) -> (AccountView, AuditRecord) {
    match tx.detail {
        TransactionDetail::Deposit { amount } => spec_deposit(a, tx.id, amount@),
        TransactionDetail::Withdrawal { amount } => spec_withdraw(a, amount@),
        TransactionDetail::Dispute { tx_id } => spec_dispute(a, tx_id),
        TransactionDetail::Resolve { tx_id } => spec_resolve(a, tx_id),
        TransactionDetail::ChargeBack { tx_id } => spec_chargeback(a, tx_id),
    }
}

impl Account {
    /// The account's full balance, `available + held`, or nothing when that
    /// sum leaves the representable range (such an account is not reportable).
    pub fn total(&self) -> (r: Option<MoneyAmount>)
        ensures
            r is Some <==> fits_scaled(self@.available + self@.held),
            r matches Some(m) ==> m@ == self@.available + self@.held,
    {
        self.available.try_change(self.held)
    }

    /// Deposit money into the account; follows `spec_deposit` exactly.
    pub fn deposit(&mut self, tx_id: TransactionId, amount: MoneyAmount) -> (r: AuditRecord)
        ensures
            final(self)@ == spec_deposit(old(self)@, tx_id, amount@).0,
            r == spec_deposit(old(self)@, tx_id, amount@).1,
    {
        if amount.scaled < 0 {
            return AuditRecord::CanNotDepositNegative;
        }
        let new_available = match self.available.try_change(amount) {
            Some(v) => v,
            None => {
                return AuditRecord::MoneyOverflow;
            },
        };
        self.available = new_available;
        self.deposited_amounts.insert(tx_id, amount);
        proof {
            assert(self@ =~= spec_deposit(old(self)@, tx_id, amount@).0);
        }
        AuditRecord::Processed
    }

    /// Withdraw money from the account; follows `spec_withdraw` exactly.
    pub fn withdraw(&mut self, amount: MoneyAmount) -> (r: AuditRecord)
        ensures
            final(self)@ == spec_withdraw(old(self)@, amount@).0,
            r == spec_withdraw(old(self)@, amount@).1,
    {
        if amount.scaled < 0 {
            return AuditRecord::CanNotWithdrawNegative;
        }
        if self.locked {
            return AuditRecord::AccountLocked;
        }
        if self.available.scaled < amount.scaled {
            return AuditRecord::NotEnoughMoneyToWithdraw;
        }
        let new_available = match self.available.try_sub(amount) {
            Some(v) => v,
            None => {
                // Defensive, as in spec_withdraw: unreachable once the
                // earlier guards have passed.
                return AuditRecord::MoneyUnderflow;
            },
        };
        self.available = new_available;
        proof {
            assert(self@ =~= spec_withdraw(old(self)@, amount@).0);
        }
        AuditRecord::Processed
    }

    /// Dispute a previously recorded deposit; follows `spec_dispute` exactly.
    pub fn dispute(&mut self, disputed_tx_id: TransactionId) -> (r: AuditRecord)
        ensures
            final(self)@ == spec_dispute(old(self)@, disputed_tx_id).0,
            r == spec_dispute(old(self)@, disputed_tx_id).1,
    {
        let disputed_amount = match self.deposited_amounts.get(&disputed_tx_id) {
            Some(amount) => *amount,
            None => {
                return AuditRecord::DisputedDepositNotFound;
            },
        };
        let new_held = match self.held.try_change(disputed_amount) {
            Some(v) => v,
            None => {
                return AuditRecord::MoneyOverflow;
            },
        };
        let new_available = match self.available.try_sub(disputed_amount) {
            Some(v) => v,
            None => {
                return AuditRecord::MoneyUnderflow;
            },
        };
        self.held = new_held;
        self.available = new_available;
        self.disputed_amounts.insert(disputed_tx_id, disputed_amount);
        self.deposited_amounts.remove(&disputed_tx_id);
        proof {
            assert(self@ =~= spec_dispute(old(self)@, disputed_tx_id).0);
        }
        AuditRecord::Processed
    }

    /// Resolve an active dispute; follows `spec_resolve` exactly.
    pub fn resolve(&mut self, disputed_tx_id: TransactionId) -> (r: AuditRecord)
        ensures
            final(self)@ == spec_resolve(old(self)@, disputed_tx_id).0,
            r == spec_resolve(old(self)@, disputed_tx_id).1,
    {
        let disputed_amount = match self.disputed_amounts.get(&disputed_tx_id) {
            Some(amount) => *amount,
            None => {
                return AuditRecord::DisputeNotFound;
            },
        };
        if self.held.scaled < disputed_amount.scaled {
            return AuditRecord::NotEnoughMoneyToRelease;
        }
        let new_available = match self.available.try_change(disputed_amount) {
            Some(v) => v,
            None => {
                return AuditRecord::MoneyOverflow;
            },
        };
        let new_held = match self.held.try_sub(disputed_amount) {
            Some(v) => v,
            None => {
                return AuditRecord::MoneyUnderflow;
            },
        };
        self.available = new_available;
        self.held = new_held;
        self.disputed_amounts.remove(&disputed_tx_id);
        self.deposited_amounts.insert(disputed_tx_id, disputed_amount);
        proof {
            assert(self@ =~= spec_resolve(old(self)@, disputed_tx_id).0);
        }
        AuditRecord::Processed
    }

    /// Charge back an active dispute and lock the account; follows
    /// `spec_chargeback` exactly.
    pub fn chargeback(&mut self, disputed_tx_id: TransactionId) -> (r: AuditRecord)
        ensures
            final(self)@ == spec_chargeback(old(self)@, disputed_tx_id).0,
            r == spec_chargeback(old(self)@, disputed_tx_id).1,
    {
        let disputed_amount = match self.disputed_amounts.get(&disputed_tx_id) {
            Some(amount) => *amount,
            None => {
                return AuditRecord::DisputeNotFound;
            },
        };
        if self.held.scaled < disputed_amount.scaled {
            return AuditRecord::NotEnoughMoneyToChargeBack;
        }
        let new_held = match self.held.try_sub(disputed_amount) {
            Some(v) => v,
            None => {
                return AuditRecord::MoneyUnderflow;
            },
        };
        self.held = new_held;
        self.disputed_amounts.remove(&disputed_tx_id);
        self.locked = true;
        proof {
            assert(self@ =~= spec_chargeback(old(self)@, disputed_tx_id).0);
        }
        AuditRecord::Processed
    }
}

impl Default for Account {
    /// A freshly created account: zero balances, unlocked, no deposits.
    fn default() -> (r: Account)
        ensures
            r@ == empty_account(),
    {
        let r = Account {
            available: MoneyAmount::from_scaled(0),
            held: MoneyAmount::from_scaled(0),
            locked: false,
            deposited_amounts: HashMap::new(),
            disputed_amounts: HashMap::new(),
        };
        proof {
            assert(r@ =~= empty_account());
        }
        r
    }
}

/// An account with the given balances and lock flag and no recorded deposits.
pub fn account(available: MoneyAmount, held: MoneyAmount, locked: bool) -> (r: Account)
    ensures
        r@ == (AccountView {
            available: available@,
            held: held@,
            locked,
            deposited: Map::empty(),
            disputed: Map::empty(),
        }),
{
    let r = Account {
        available,
        held,
        locked,
        deposited_amounts: HashMap::new(),
        disputed_amounts: HashMap::new(),
    };
    proof {
        assert(r@ =~= (AccountView {
            available: available@,
            held: held@,
            locked,
            deposited: Map::empty(),
            disputed: Map::empty(),
        }));
    }
    r
}

} // verus!
