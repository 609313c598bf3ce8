//! The five kinds of transaction.

use crate::types::amount::Amount;
use crate::types::common::{ClientId, CsvRow, TxId};
use vstd::prelude::*;
use vstd::std_specs::convert::TryFromSpecImpl;

verus! {

/// Credits an account.
#[derive(Debug, Clone, Copy)]
pub struct DepositTx {
    pub client_id: ClientId,
    pub tx_id: TxId,
    pub amount: Amount,
}

/// Debits an account, where it holds enough.
#[derive(Debug, Clone, Copy)]
pub struct WithdrawalTx {
    pub client_id: ClientId,
    pub tx_id: TxId,
    pub amount: Amount,
}

/// Claims that the deposit `tx_id` of the client was made in error.
#[derive(Debug, Clone, Copy)]
pub struct DisputeTx {
    pub client_id: ClientId,
    pub tx_id: TxId,
}

/// Settles the dispute on the deposit `tx_id` in favour of the deposit.
#[derive(Debug, Clone, Copy)]
pub struct ResolveTx {
    pub client_id: ClientId,
    pub tx_id: TxId,
}

/// Settles the dispute on the deposit `tx_id` by reversing the deposit.
#[derive(Debug, Clone, Copy)]
pub struct ChargebackTx {
    pub client_id: ClientId,
    pub tx_id: TxId,
}

/// A transaction.
#[derive(Debug, Clone, Copy)]
pub enum Tx {
    Deposit(DepositTx),
    Withdrawal(WithdrawalTx),
    Dispute(DisputeTx),
    Resolve(ResolveTx),
    Chargeback(ChargebackTx),
}

impl Tx {
    /// The client that the transaction names.
    pub open spec fn client_id(self) -> ClientId {
        match self {
            Tx::Deposit(deposit_tx) => deposit_tx.client_id,
            Tx::Withdrawal(withdrawal_tx) => withdrawal_tx.client_id,
            Tx::Dispute(dispute_tx) => dispute_tx.client_id,
            Tx::Resolve(resolve_tx) => resolve_tx.client_id,
            Tx::Chargeback(chargeback_tx) => chargeback_tx.client_id,
        }
    }

    /// Whether the amount that the transaction moves, if it moves one, is
    /// zero or more.
    pub open spec fn valid(self) -> bool {
        match self {
            Tx::Deposit(deposit_tx) => deposit_tx.amount.is_non_negative(),
            Tx::Withdrawal(withdrawal_tx) => withdrawal_tx.amount.is_non_negative(),
            _ => true,
        }
    }

    /// Whether the amount that the transaction moves, if it moves one, is
    /// zero or more.
    pub fn is_valid(&self) -> (r: bool)
        ensures
            r == self.valid(),
    {
        match self {
            Tx::Deposit(deposit_tx) => deposit_tx.amount.mantissa() >= 0,
            Tx::Withdrawal(withdrawal_tx) => withdrawal_tx.amount.mantissa() >= 0,
            _ => true,
        }
    }
}

impl TryFrom<CsvRow> for Tx {
    type Error = ();

    fn try_from(value: CsvRow) -> (r: Result<Tx, ()>) {
        if value.kind == "deposit".to_owned() {
            match value.amount {
                Some(amount) => Ok(
                    Tx::Deposit(DepositTx { client_id: value.client, tx_id: value.tx, amount }),
                ),
                None => Err(()),
            }
        } else if value.kind == "withdrawal".to_owned() {
            match value.amount {
                Some(amount) => Ok(
                    Tx::Withdrawal(
                        WithdrawalTx { client_id: value.client, tx_id: value.tx, amount },
                    ),
                ),
                None => Err(()),
            }
        } else if value.kind == "dispute".to_owned() {
            Ok(Tx::Dispute(DisputeTx { client_id: value.client, tx_id: value.tx }))
        } else if value.kind == "resolve".to_owned() {
            Ok(Tx::Resolve(ResolveTx { client_id: value.client, tx_id: value.tx }))
        } else if value.kind == "chargeback".to_owned() {
            Ok(Tx::Chargeback(ChargebackTx { client_id: value.client, tx_id: value.tx }))
        } else {
            Err(())
        }
    }
}

impl TryFromSpecImpl<CsvRow> for Tx {
    open spec fn obeys_try_from_spec() -> bool {
        true
    }

    /// The transaction that a record stands for: its kind is one of the five
    /// tokens, spelled exactly, and a deposit or a withdrawal has an amount.
    /// An amount on a record of another kind is ignored.
    open spec fn try_from_spec(value: CsvRow) -> Result<Tx, ()> {
        if value.kind@ == "deposit"@ {
            match value.amount {
                Some(amount) => Ok(
                    Tx::Deposit(DepositTx { client_id: value.client, tx_id: value.tx, amount }),
                ),
                None => Err(()),
            }
        } else if value.kind@ == "withdrawal"@ {
            match value.amount {
                Some(amount) => Ok(
                    Tx::Withdrawal(
                        WithdrawalTx { client_id: value.client, tx_id: value.tx, amount },
                    ),
                ),
                None => Err(()),
            }
        } else if value.kind@ == "dispute"@ {
            Ok(Tx::Dispute(DisputeTx { client_id: value.client, tx_id: value.tx }))
        } else if value.kind@ == "resolve"@ {
            Ok(Tx::Resolve(ResolveTx { client_id: value.client, tx_id: value.tx }))
        } else if value.kind@ == "chargeback"@ {
            Ok(Tx::Chargeback(ChargebackTx { client_id: value.client, tx_id: value.tx }))
        } else {
            Err(())
        }
    }
}

} // verus!
