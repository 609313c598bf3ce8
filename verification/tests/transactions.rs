//! Records of the input as transactions.

use payments_engine::engine::{DepositStatus, Engine};
use payments_engine::types::amount::Amount;
use payments_engine::types::client::Client;
use payments_engine::types::common::CsvRow;
use payments_engine::types::transactions::{DepositTx, DisputeTx, Tx, WithdrawalTx};

fn row(kind: &str, amount: Option<Amount>) -> CsvRow {
    CsvRow { kind: kind.to_string(), client: 7, tx: 42, amount }
}

#[test]
fn deposit_row_becomes_a_deposit() {
    match Tx::try_from(row("deposit", Some(Amount::new(15, 1)))) {
        Ok(Tx::Deposit(d)) => {
            assert_eq!(d.client_id, 7);
            assert_eq!(d.tx_id, 42);
            assert_eq!(d.amount, Amount::new(15, 1));
        }
        other => panic!("not a deposit: {:?}", other),
    }
}

#[test]
fn withdrawal_row_becomes_a_withdrawal() {
    match Tx::try_from(row("withdrawal", Some(Amount::new(3, 0)))) {
        Ok(Tx::Withdrawal(w)) => {
            assert_eq!(w.client_id, 7);
            assert_eq!(w.tx_id, 42);
            assert_eq!(w.amount, Amount::new(3, 0));
        }
        other => panic!("not a withdrawal: {:?}", other),
    }
}

#[test]
fn control_rows_need_no_amount() {
    assert!(matches!(
        Tx::try_from(row("dispute", None)),
        Ok(Tx::Dispute(d)) if d.client_id == 7 && d.tx_id == 42
    ));
    assert!(matches!(
        Tx::try_from(row("resolve", None)),
        Ok(Tx::Resolve(r)) if r.client_id == 7 && r.tx_id == 42
    ));
    assert!(matches!(
        Tx::try_from(row("chargeback", None)),
        Ok(Tx::Chargeback(c)) if c.client_id == 7 && c.tx_id == 42
    ));
}

#[test]
fn control_rows_ignore_an_amount() {
    assert!(matches!(
        Tx::try_from(row("dispute", Some(Amount::new(1, 0)))),
        Ok(Tx::Dispute(d)) if d.client_id == 7 && d.tx_id == 42
    ));
}

#[test]
fn deposit_and_withdrawal_need_an_amount() {
    assert!(matches!(Tx::try_from(row("deposit", None)), Err(())));
    assert!(matches!(Tx::try_from(row("withdrawal", None)), Err(())));
}

#[test]
fn unknown_kinds_are_refused() {
    assert!(matches!(Tx::try_from(row("transfer", Some(Amount::new(1, 0)))), Err(())));
    assert!(matches!(Tx::try_from(row("", None)), Err(())));
}

#[test]
fn kinds_are_case_sensitive_and_exact() {
    assert!(matches!(Tx::try_from(row("Deposit", Some(Amount::new(1, 0)))), Err(())));
    assert!(matches!(Tx::try_from(row("DISPUTE", None)), Err(())));
    assert!(matches!(Tx::try_from(row("deposit ", Some(Amount::new(1, 0)))), Err(())));
    assert!(matches!(Tx::try_from(row("deposits", Some(Amount::new(1, 0)))), Err(())));
}

#[test]
fn validity_is_a_non_negative_amount() {
    let deposit = |m: i64| Tx::Deposit(DepositTx { client_id: 1, tx_id: 1, amount: Amount::new(m, 2) });
    let withdrawal =
        |m: i64| Tx::Withdrawal(WithdrawalTx { client_id: 1, tx_id: 1, amount: Amount::new(m, 2) });
    assert!(deposit(0).is_valid());
    assert!(deposit(1).is_valid());
    assert!(!deposit(-1).is_valid());
    assert!(withdrawal(0).is_valid());
    assert!(!withdrawal(-1).is_valid());
    assert!(Tx::Dispute(DisputeTx { client_id: 1, tx_id: 1 }).is_valid());
}

#[test]
fn new_client_is_empty_and_unlocked() {
    let client = Client::new(9);
    assert_eq!(client.id, 9);
    assert_eq!(client.available, Amount::zero());
    assert_eq!(client.held, Amount::zero());
    assert_eq!(client.total, Amount::zero());
    assert!(!client.locked);
}

#[test]
fn process_row_applies_what_the_row_stands_for() {
    let mut engine = Engine::new();
    engine.process_row(CsvRow { kind: "deposit".to_string(), client: 1, tx: 1, amount: Some(Amount::new(1005, 1)) });
    engine.process_row(CsvRow { kind: "withdrawal".to_string(), client: 1, tx: 2, amount: Some(Amount::new(5, 1)) });
    engine.process_row(CsvRow { kind: "dispute".to_string(), client: 1, tx: 1, amount: None });
    {
        let client = engine.clients().get(&1).unwrap();
        assert_eq!(client.available, Amount::new(-5, 1));
        assert_eq!(client.held, Amount::new(1005, 1));
        assert_eq!(client.total, Amount::new(100, 0));
    }
    engine.process_row(CsvRow { kind: "resolve".to_string(), client: 1, tx: 1, amount: None });
    assert_eq!(engine.deposits().get(&1).unwrap().1, DepositStatus::Resolved);
    engine.process_row(CsvRow { kind: "deposit".to_string(), client: 2, tx: 3, amount: Some(Amount::new(7, 0)) });
    engine.process_row(CsvRow { kind: "dispute".to_string(), client: 2, tx: 3, amount: None });
    engine.process_row(CsvRow { kind: "chargeback".to_string(), client: 2, tx: 3, amount: None });
    let client = engine.clients().get(&2).unwrap();
    assert!(client.locked);
    assert_eq!(client.total, Amount::zero());
}

#[test]
fn process_row_skips_what_is_no_valid_transaction() {
    let mut engine = Engine::new();
    engine.process_row(CsvRow { kind: "deposit".to_string(), client: 1, tx: 1, amount: None });
    engine.process_row(CsvRow { kind: "refund".to_string(), client: 1, tx: 2, amount: Some(Amount::new(1, 0)) });
    engine.process_row(CsvRow { kind: "deposit".to_string(), client: 1, tx: 3, amount: Some(Amount::new(-1, 0)) });
    assert!(engine.clients().is_empty());
    assert!(engine.deposits().is_empty());
    engine.process_row(CsvRow { kind: "deposit".to_string(), client: 1, tx: 4, amount: Some(Amount::new(10, 0)) });
    engine.process_row(CsvRow { kind: "withdrawal".to_string(), client: 1, tx: 5, amount: Some(Amount::new(-3, 0)) });
    let client = engine.clients().get(&1).unwrap();
    assert_eq!(client.available, Amount::new(10, 0));
    assert_eq!(client.total, Amount::new(10, 0));
}
