//! The transaction model: an immutable record of a client id, a transaction
//! id, and a tagged payload. Constructors do no validation; every check is
//! deferred to the account operations.

use crate::money::MoneyAmount;
use vstd::prelude::*;

verus! {

pub type TransactionId = u32;

pub type ClientId = u16;

#[derive(Debug, Clone, Copy)]
pub enum TransactionDetail {
    Deposit { amount: MoneyAmount },
    Withdrawal { amount: MoneyAmount },
    Dispute { tx_id: TransactionId },
    Resolve { tx_id: TransactionId },
    ChargeBack { tx_id: TransactionId },
}

#[derive(Debug, Clone, Copy)]
pub struct Transaction {
    pub id: TransactionId,
    pub client_id: ClientId,
    pub detail: TransactionDetail,
}

/// A deposit of `amount` into the client's account, tracked under `tx_id`.
pub fn deposit(client_id: ClientId, tx_id: TransactionId, amount: MoneyAmount) -> (r: Transaction)
    ensures
        r == (Transaction {
            client_id,
            id: tx_id,
            detail: TransactionDetail::Deposit { amount },
        }),
{
    Transaction { client_id, id: tx_id, detail: TransactionDetail::Deposit { amount } }
}

/// A withdrawal of `amount` from the client's account.
pub fn withdraw(client_id: ClientId, tx_id: TransactionId, amount: MoneyAmount) -> (r: Transaction)
    ensures
        r == (Transaction {
            client_id,
            id: tx_id,
            detail: TransactionDetail::Withdrawal { amount },
        }),
{
    Transaction { client_id, id: tx_id, detail: TransactionDetail::Withdrawal { amount } }
}

/// A dispute of the deposit tracked under `disputed_tx_id`. Disputes carry no
/// transaction id of their own, so `id` is left at zero.
pub fn dispute(client_id: ClientId, disputed_tx_id: TransactionId) -> (r: Transaction)
    ensures
        r == (Transaction {
            client_id,
            id: 0,
            detail: TransactionDetail::Dispute { tx_id: disputed_tx_id },
        }),
{
    Transaction { client_id, id: 0, detail: TransactionDetail::Dispute { tx_id: disputed_tx_id } }
}

/// A resolution of the dispute on `disputed_tx_id`; `id` is left at zero as
/// for disputes.
pub fn resolve(client_id: ClientId, disputed_tx_id: TransactionId) -> (r: Transaction)
    ensures
        r == (Transaction {
            client_id,
            id: 0,
            detail: TransactionDetail::Resolve { tx_id: disputed_tx_id },
        }),
{
    Transaction { client_id, id: 0, detail: TransactionDetail::Resolve { tx_id: disputed_tx_id } }
}

/// A chargeback of the dispute on `disputed_tx_id`; `id` is left at zero as
/// for disputes.
pub fn chargeback(client_id: ClientId, disputed_tx_id: TransactionId) -> (r: Transaction)
    ensures
        r == (Transaction {
            client_id,
            id: 0,
            detail: TransactionDetail::ChargeBack { tx_id: disputed_tx_id },
        }),
{
    Transaction {
        client_id,
        id: 0,
        detail: TransactionDetail::ChargeBack { tx_id: disputed_tx_id },
    }
}

} // verus!
