use ledger::account::{account, Account, AuditRecord};
use ledger::money::MoneyAmount;
use ledger::processor::Processor;
use ledger::transactions::{chargeback, deposit, dispute, resolve, withdraw, ClientId, Transaction};

/// The boundary convention for decimal input: round to the nearest 1/10000
/// unit before entering the fixed-point representation.
fn money(value: f64) -> MoneyAmount {
    MoneyAmount::from_scaled((value * 10000.0).round() as i64)
}

/// Assert that after processing of given transactions we get expected audit
/// records and account states (balances and lock flag, per client).
fn assert_processing(
    transactions: &[Transaction],
    expected_audit: &[AuditRecord],
    expected_accounts: &[(ClientId, Account)],
) {
    let mut processor = Processor::default();
    let txs: Vec<Transaction> = transactions.to_vec();
    let audit = processor.process(&txs);

    assert_eq!(audit, expected_audit);
    assert_eq!(processor.accounts.len(), expected_accounts.len());
    for (id, expected) in expected_accounts {
        let got = processor.accounts.get(id).expect("expected account exists");
        assert_eq!(got.available, expected.available);
        assert_eq!(got.held, expected.held);
        assert_eq!(got.locked, expected.locked);
    }
}

#[test]
fn processing_nothing_yields_nothing() {
    assert_processing(&[], &[], &[]);
}

#[test]
fn deposit_increase_available_in_correct_accounts() {
    assert_processing(
        &[deposit(2, 100, money(99.8765)), deposit(1, 101, money(12.1234))],
        &[AuditRecord::Processed, AuditRecord::Processed],
        &[
            (1, account(money(12.1234), MoneyAmount::from(0), false)),
            (2, account(money(99.8765), MoneyAmount::from(0), false)),
        ],
    );
}

#[test]
fn deposit_fails_on_negative_amounts() {
    let money = MoneyAmount::from(10);
    assert_processing(
        &[deposit(1, 101, money), deposit(1, 101, MoneyAmount::from(-13))],
        &[AuditRecord::Processed, AuditRecord::CanNotDepositNegative],
        &[(1, account(money, MoneyAmount::from(0), false))],
    );
}

#[test]
fn deposit_fails_on_overflow() {
    let large = MoneyAmount::from_scaled(i64::MAX)
        .try_change(MoneyAmount::from(-100))
        .unwrap();
    assert_processing(
        &[deposit(1, 101, large), deposit(1, 101, MoneyAmount::from(101))],
        &[AuditRecord::Processed, AuditRecord::MoneyOverflow],
        &[(1, account(large, MoneyAmount::from(0), false))],
    );
}

#[test]
fn withdraw_decrease_amount() {
    assert_processing(
        &[deposit(1, 100, money(12.1234)), withdraw(1, 101, money(2.12))],
        &[AuditRecord::Processed, AuditRecord::Processed],
        &[(1, account(money(10.0034), MoneyAmount::from(0), false))],
    );
}

#[test]
fn withdraw_fails_on_negative_amount() {
    assert_processing(
        &[
            deposit(1, 100, money(12.1234)),
            withdraw(1, 101, MoneyAmount::from(-3)),
        ],
        &[AuditRecord::Processed, AuditRecord::CanNotWithdrawNegative],
        &[(1, account(money(12.1234), MoneyAmount::from(0), false))],
    );
}

#[test]
fn withdraw_must_have_money() {
    assert_processing(
        &[deposit(1, 100, money(12.1234)), withdraw(1, 101, money(20.12))],
        &[
            AuditRecord::Processed,
            AuditRecord::NotEnoughMoneyToWithdraw,
        ],
        &[(1, account(money(12.1234), MoneyAmount::from(0), false))],
    );
}

#[test]
fn withdraw_fails_on_locked_account() {
    assert_processing(
        &[
            deposit(1, 100, MoneyAmount::from(13)),
            dispute(1, 100),
            chargeback(1, 100),
            withdraw(1, 104, MoneyAmount::from(7)),
        ],
        &[
            AuditRecord::Processed,
            AuditRecord::Processed,
            AuditRecord::Processed,
            AuditRecord::AccountLocked,
        ],
        &[(1, account(MoneyAmount::from(0), MoneyAmount::from(0), true))],
    );
}

#[test]
fn locked_account_rejects_withdrawal_despite_funds() {
    assert_processing(
        &[
            deposit(1, 100, MoneyAmount::from(13)),
            dispute(1, 100),
            chargeback(1, 100),
            deposit(1, 105, MoneyAmount::from(50)),
            withdraw(1, 106, MoneyAmount::from(7)),
        ],
        &[
            AuditRecord::Processed,
            AuditRecord::Processed,
            AuditRecord::Processed,
            AuditRecord::Processed,
            AuditRecord::AccountLocked,
        ],
        &[(1, account(MoneyAmount::from(50), MoneyAmount::from(0), true))],
    );
}

#[test]
fn dispute_deposits() {
    assert_processing(
        &[
            deposit(1, 100, money(1000.0)),
            deposit(1, 101, money(200.0)),
            dispute(1, 101),
        ],
        &[
            AuditRecord::Processed,
            AuditRecord::Processed,
            AuditRecord::Processed,
        ],
        &[(
            1,
            account(MoneyAmount::from(1000), MoneyAmount::from(200), false),
        )],
    );
}

#[test]
fn dispute_only_deposits() {
    assert_processing(
        &[
            deposit(1, 100, money(1000.0)),
            withdraw(1, 101, money(200.0)),
            dispute(1, 100),
            dispute(1, 101),
            dispute(1, 102),
        ],
        &[
            AuditRecord::Processed,
            AuditRecord::Processed,
            AuditRecord::Processed,
            AuditRecord::DisputedDepositNotFound,
            AuditRecord::DisputedDepositNotFound,
        ],
        &[(
            1,
            account(MoneyAmount::from(-200), MoneyAmount::from(1000), false),
        )],
    );
}

#[test]
fn dispute_only_once() {
    assert_processing(
        &[
            deposit(1, 100, money(1000.0)),
            dispute(1, 100),
            dispute(1, 100),
        ],
        &[
            AuditRecord::Processed,
            AuditRecord::Processed,
            AuditRecord::DisputedDepositNotFound,
        ],
        &[(
            1,
            account(MoneyAmount::from(0), MoneyAmount::from(1000), false),
        )],
    );
}

#[test]
fn dispute_not_enough_funds() {
    assert_processing(
        &[
            deposit(1, 100, money(600.0)),
            withdraw(1, 101, money(500.0)),
            dispute(1, 100),
        ],
        &[
            AuditRecord::Processed,
            AuditRecord::Processed,
            AuditRecord::Processed,
        ],
        &[(
            1,
            account(MoneyAmount::from(-500), MoneyAmount::from(600), false),
        )],
    );
}

#[test]
fn resolve_decrease_held_funds() {
    assert_processing(
        &[
            deposit(1, 100, money(1000.0)),
            dispute(1, 100),
            resolve(1, 100),
        ],
        &[
            AuditRecord::Processed,
            AuditRecord::Processed,
            AuditRecord::Processed,
        ],
        &[(
            1,
            account(MoneyAmount::from(1000), MoneyAmount::from(0), false),
        )],
    );
}

#[test]
fn dispute_resolve_dispute_round_trips() {
    assert_processing(
        &[
            deposit(1, 100, money(1000.0)),
            dispute(1, 100),
            resolve(1, 100),
            dispute(1, 100),
        ],
        &[
            AuditRecord::Processed,
            AuditRecord::Processed,
            AuditRecord::Processed,
            AuditRecord::Processed,
        ],
        &[(
            1,
            account(MoneyAmount::from(0), MoneyAmount::from(1000), false),
        )],
    );
}

#[test]
fn resolve_without_dispute_is_not_found() {
    assert_processing(
        &[deposit(1, 100, money(1000.0)), resolve(1, 100)],
        &[AuditRecord::Processed, AuditRecord::DisputeNotFound],
        &[(
            1,
            account(MoneyAmount::from(1000), MoneyAmount::from(0), false),
        )],
    );
}

#[test]
fn chargeback_decrease_held_funds_and_freeze_account() {
    assert_processing(
        &[
            deposit(1, 100, money(1000.0)),
            dispute(1, 100),
            chargeback(1, 100),
        ],
        &[
            AuditRecord::Processed,
            AuditRecord::Processed,
            AuditRecord::Processed,
        ],
        &[(1, account(MoneyAmount::from(0), MoneyAmount::from(0), true))],
    );
}

#[test]
fn chargeback_once() {
    assert_processing(
        &[
            deposit(1, 100, money(1000.0)),
            dispute(1, 100),
            chargeback(1, 100),
            chargeback(1, 100),
        ],
        &[
            AuditRecord::Processed,
            AuditRecord::Processed,
            AuditRecord::Processed,
            AuditRecord::DisputeNotFound,
        ],
        &[(1, account(MoneyAmount::from(0), MoneyAmount::from(0), true))],
    );
}
