//! The ledger as a mathematical state, and the rules by which a transaction
//! changes it.
//!
//! The rules are total: a transaction that does not meet the conditions of
//! its rule leaves the state as it is. So does one whose new balances no
//! decimal represents exactly.

use crate::types::amount::Amount;
use crate::types::client::Client;
use crate::types::common::{ClientId, CsvRow, TxId};
use crate::types::transactions::{ChargebackTx, DepositTx, DisputeTx, ResolveTx, Tx, WithdrawalTx};
use vstd::prelude::*;
use vstd::std_specs::convert::TryFromSpec;

verus! {

/// Where a deposit stands in the dispute protocol.
#[derive(Debug, Clone, Copy, PartialEq, Eq, Structural)]
pub enum DepositStatus {
    /// Not disputed so far.
    Normal,
    /// Disputed, and the dispute is open.
    UnderDispute,
    /// The dispute was settled in favour of the deposit.
    Resolved,
    /// The dispute was settled by reversing the deposit.
    ChargedBack,
}

impl DepositStatus {
    /// Whether no transaction changes the status any more.
    pub open spec fn is_terminal(self) -> bool {
        self == DepositStatus::Resolved || self == DepositStatus::ChargedBack
    }
}

/// The accounts by client, and the deposits with their status by transaction.
#[verifier::ext_equal]
pub struct LedgerState {
    pub accounts: Map<ClientId, Client>,
    pub deposits: Map<TxId, (DepositTx, DepositStatus)>,
}

impl LedgerState {
    /// No accounts, no deposits.
    pub open spec fn empty() -> LedgerState {
        LedgerState { accounts: Map::empty(), deposits: Map::empty() }
    }

    /// The account of `client`, or the one that would be opened for `client`.
    pub open spec fn account_or_new(self, client: ClientId) -> Client {
        if self.accounts.contains_key(client) {
            self.accounts[client]
        } else {
            Client::new(client)
        }
    }

    /// The deposits with `deposit` added, unless its transaction identifier
    /// is taken: the first deposit under an identifier stays.
    pub open spec fn registered(self, deposit: DepositTx) -> Map<TxId, (DepositTx, DepositStatus)> {
        if self.deposits.contains_key(deposit.tx_id) {
            self.deposits
        } else {
            self.deposits.insert(deposit.tx_id, (deposit, DepositStatus::Normal))
        }
    }

    /// Whether the deposit `tx` is registered as the client's own and stands
    /// at `status`.
    pub open spec fn is_deposit_of(self, client: ClientId, tx: TxId, status: DepositStatus) -> bool {
        &&& self.deposits.contains_key(tx)
        &&& self.deposits[tx].0.client_id == client
        &&& self.deposits[tx].1 == status
    }

    /// Whether `client` has an account and the deposit `tx` is the client's
    /// own and stands at `status`.
    pub open spec fn refers_to(self, client: ClientId, tx: TxId, status: DepositStatus) -> bool {
        self.accounts.contains_key(client) && self.is_deposit_of(client, tx, status)
    }

    /// A deposit opens the client's account if there is none. Unless the
    /// account is locked, it adds the amount to the available and the total
    /// funds, and registers the deposit.
    pub open spec fn deposit(self, tx: DepositTx) -> LedgerState {
        let account = self.account_or_new(tx.client_id);
        if account.locked {
            self
        } else {
            match (
                Amount::exact_sum(account.available, tx.amount),
                Amount::exact_sum(account.total, tx.amount),
            ) {
                (Some(available), Some(total)) => LedgerState {
                    accounts: self.accounts.insert(
                        tx.client_id,
                        Client { available, total, ..account },
                    ),
                    deposits: self.registered(tx),
                },
                _ => LedgerState {
                    accounts: self.accounts.insert(tx.client_id, account),
                    ..self
                },
            }
        }
    }

    /// A withdrawal takes the amount from the available and the total funds
    /// of an account that exists, is not locked and has that much available.
    pub open spec fn withdrawal(self, tx: WithdrawalTx) -> LedgerState {
        if !self.accounts.contains_key(tx.client_id) {
            self
        } else {
            let account = self.accounts[tx.client_id];
            if account.locked || account.available.value() < tx.amount.value() {
                self
            } else {
                match (
                    Amount::exact_difference(account.available, tx.amount),
                    Amount::exact_difference(account.total, tx.amount),
                ) {
                    (Some(available), Some(total)) => LedgerState {
                        accounts: self.accounts.insert(
                            tx.client_id,
                            Client { available, total, ..account },
                        ),
                        ..self
                    },
                    _ => self,
                }
            }
        }
    }

    /// A dispute on a deposit of the client's own that was not disputed
    /// before moves the deposit's amount from the available to the held
    /// funds. The available funds may become negative.
    pub open spec fn dispute(self, tx: DisputeTx) -> LedgerState {
        if !self.refers_to(tx.client_id, tx.tx_id, DepositStatus::Normal) {
            self
        } else {
            let account = self.accounts[tx.client_id];
            let deposit = self.deposits[tx.tx_id].0;
            match (
                Amount::exact_difference(account.available, deposit.amount),
                Amount::exact_sum(account.held, deposit.amount),
            ) {
                (Some(available), Some(held)) => LedgerState {
                    accounts: self.accounts.insert(
                        tx.client_id,
                        Client { available, held, ..account },
                    ),
                    deposits: self.deposits.insert(
                        tx.tx_id,
                        (deposit, DepositStatus::UnderDispute),
                    ),
                },
                _ => self,
            }
        }
    }

    /// Resolving an open dispute moves the deposit's amount back from the
    /// held to the available funds.
    pub open spec fn resolve(self, tx: ResolveTx) -> LedgerState {
        if !self.refers_to(tx.client_id, tx.tx_id, DepositStatus::UnderDispute) {
            self
        } else {
            let account = self.accounts[tx.client_id];
            let deposit = self.deposits[tx.tx_id].0;
            match (
                Amount::exact_sum(account.available, deposit.amount),
                Amount::exact_difference(account.held, deposit.amount),
            ) {
                (Some(available), Some(held)) => LedgerState {
                    accounts: self.accounts.insert(
                        tx.client_id,
                        Client { available, held, ..account },
                    ),
                    deposits: self.deposits.insert(tx.tx_id, (deposit, DepositStatus::Resolved)),
                },
                _ => self,
            }
        }
    }

    /// A chargeback on an open dispute takes the deposit's amount from the
    /// held and the total funds, and locks the account.
    pub open spec fn chargeback(self, tx: ChargebackTx) -> LedgerState {
        if !self.refers_to(tx.client_id, tx.tx_id, DepositStatus::UnderDispute) {
            self
        } else {
            let account = self.accounts[tx.client_id];
            let deposit = self.deposits[tx.tx_id].0;
            match (
                Amount::exact_difference(account.total, deposit.amount),
                Amount::exact_difference(account.held, deposit.amount),
            ) {
                (Some(total), Some(held)) => LedgerState {
                    accounts: self.accounts.insert(
                        tx.client_id,
                        Client { total, held, locked: true, ..account },
                    ),
                    deposits: self.deposits.insert(
                        tx.tx_id,
                        (deposit, DepositStatus::ChargedBack),
                    ),
                },
                _ => self,
            }
        }
    }

    /// The state after one transaction.
    pub open spec fn apply(self, tx: Tx) -> LedgerState {
        match tx {
            Tx::Deposit(deposit_tx) => self.deposit(deposit_tx),
            Tx::Withdrawal(withdrawal_tx) => self.withdrawal(withdrawal_tx),
            Tx::Dispute(dispute_tx) => self.dispute(dispute_tx),
            Tx::Resolve(resolve_tx) => self.resolve(resolve_tx),
            Tx::Chargeback(chargeback_tx) => self.chargeback(chargeback_tx),
        }
    }

    /// The state after one record of the input: the record's transaction is
    /// applied if the record stands for one and that one is valid, and the
    /// record is skipped if not.
    pub open spec fn apply_row(self, row: CsvRow) -> LedgerState {
        match <Tx as TryFromSpec<CsvRow>>::try_from_spec(row) {
            Ok(tx) => if tx.valid() {
                self.apply(tx)
            } else {
                self
            },
            Err(_) => self,
        }
    }

    /// The state after the records of `rows`, taken in their order.
    pub open spec fn apply_rows(self, rows: Seq<CsvRow>) -> LedgerState
        decreases rows.len(),
    {
        if rows.len() == 0 {
            self
        } else {
            self.apply_rows(rows.drop_last()).apply_row(rows.last())
        }
    }

    /// The state after the transactions of `txs`, applied in their order.
    pub open spec fn apply_all(self, txs: Seq<Tx>) -> LedgerState
        decreases txs.len(),
    {
        if txs.len() == 0 {
            self
        } else {
            self.apply_all(txs.drop_last()).apply(txs.last())
        }
    }

    /// The state that the transactions of `txs` lead to from the empty one.
    pub open spec fn run(txs: Seq<Tx>) -> LedgerState {
        LedgerState::empty().apply_all(txs)
    }

    /// What the deposit `tx` adds to the held funds of `client`: its amount
    /// while it is the client's and under dispute, and nothing otherwise.
    pub open spec fn disputed_amount(self, client: ClientId, tx: TxId) -> int {
        if self.is_deposit_of(client, tx, DepositStatus::UnderDispute) {
            self.deposits[tx].0.amount.value()
        } else {
            0
        }
    }

    /// The amounts under dispute of `client` over the transactions below `n`.
    pub open spec fn disputed_below(self, client: ClientId, n: nat) -> int
        decreases n,
    {
        if n == 0 {
            0
        } else {
            self.disputed_below(client, (n - 1) as nat) + self.disputed_amount(
                client,
                (n - 1) as TxId,
            )
        }
    }

    /// The amounts of all deposits of `client` that are under dispute.
    pub open spec fn disputed(self, client: ClientId) -> int {
        self.disputed_below(client, 0x1_0000_0000)
    }

    /// What holds of the account of `client` in every state that
    /// transactions lead to: the total is the available and the held funds
    /// together, and the held funds are not negative.
    pub open spec fn sound_account(self, client: ClientId) -> bool {
        &&& self.accounts[client].balanced()
        &&& self.accounts[client].held.value() >= 0
    }

    /// Whether the ledger is in order: every account is filed under its own
    /// client, its total is the available and the held funds together, and
    /// its held funds are the amounts of its deposits under dispute; every
    /// deposit has an amount of zero or more and belongs to a client with an
    /// account.
    pub open spec fn consistent(self) -> bool {
        &&& forall|c: ClientId| #[trigger]
            self.accounts.contains_key(c) ==> {
                &&& self.accounts[c].id == c
                &&& self.accounts[c].balanced()
                &&& self.accounts[c].held.value() == self.disputed(c)
            }
        &&& forall|t: TxId| #[trigger]
            self.deposits.contains_key(t) ==> {
                &&& self.deposits[t].0.amount.is_non_negative()
                &&& self.accounts.contains_key(self.deposits[t].0.client_id)
            }
    }
}

} // verus!
