//! The engine: the ledger in memory, and the five rules that change it.

use crate::laws::{
    lemma_chargeback_consistent, lemma_consistent_is_sound, lemma_deposit_consistent,
    lemma_dispute_consistent, lemma_resolve_consistent, lemma_withdrawal_consistent,
};
pub use crate::ledger::DepositStatus;
use crate::ledger::LedgerState;
use crate::types::client::Client;
use crate::types::common::{ClientId, CsvRow, TxId};
use crate::types::transactions::{ChargebackTx, DepositTx, DisputeTx, ResolveTx, Tx, WithdrawalTx};
use std::collections::HashMap;
use vstd::prelude::*;
use vstd::std_specs::hash::group_hash_axioms;

verus! {

broadcast use group_hash_axioms;

/// The accounts of all clients and the deposits made so far.
pub struct Engine {
    clients: HashMap<ClientId, Client>,
    deposits: HashMap<TxId, (DepositTx, DepositStatus)>,
}

impl View for Engine {
    type V = LedgerState;

    closed spec fn view(&self) -> LedgerState {
        LedgerState { accounts: self.clients@, deposits: self.deposits@ }
    }
}

impl Engine {
    /// Whether the ledger that the engine holds is consistent. Every engine
    /// that `new` and the `process_` functions hand out is.
    pub open spec fn wf(&self) -> bool {
        self@.consistent()
    }

    /// An engine without accounts or deposits.
    pub fn new() -> (r: Engine)
        ensures
            r@ == LedgerState::empty(),
            r.wf(),
    {
        let r = Engine { clients: HashMap::new(), deposits: HashMap::new() };
        assert(r@ =~= LedgerState::empty());
        r
    }

    /// The accounts by client. In each of them the total is the available
    /// and the held funds together, and the held funds are not negative.
    pub fn clients(&self) -> (r: &HashMap<ClientId, Client>)
        ensures
            r@ == self@.accounts,
            self.wf() ==> forall|c: ClientId| #[trigger]
                r@.contains_key(c) ==> r@[c].id == c && self@.sound_account(c),
    {
        proof {
            if self.wf() {
                assert forall|c: ClientId| #[trigger]
                    self@.accounts.contains_key(c) implies self@.sound_account(c) by {
                    lemma_consistent_is_sound(self@, c);
                }
            }
        }
        &self.clients
    }

    /// The deposits with their status by transaction.
    pub fn deposits(&self) -> (r: &HashMap<TxId, (DepositTx, DepositStatus)>)
        ensures
            r@ == self@.deposits,
    {
        &self.deposits
    }

    /// Applies the transaction that a record of the input stands for. A
    /// record that stands for none, or for one with a negative amount, is
    /// skipped.
    pub fn process_row(&mut self, row: CsvRow)
        requires
            old(self).wf(),
        ensures
            final(self).wf(),
            final(self)@ == old(self)@.apply_row(row),
    {
        match Tx::try_from(row) {
            Ok(tx) => {
                if tx.is_valid() {
                    self.process_tx(tx);
                }
            },
            Err(_) => {},
        }
    }

    /// Applies one transaction by the rule for its kind.
    pub fn process_tx(&mut self, tx: Tx)
        requires
            old(self).wf(),
            tx.valid(),
        ensures
            final(self).wf(),
            final(self)@ == old(self)@.apply(tx),
    {
        match tx {
            Tx::Deposit(deposit_tx) => {
                self.process_deposit(deposit_tx);
            },
            Tx::Withdrawal(withdrawal_tx) => {
                self.process_withdrawal(withdrawal_tx);
            },
            Tx::Dispute(dispute_tx) => {
                self.process_dispute(dispute_tx);
            },
            Tx::Resolve(resolve_tx) => {
                self.process_resolve(resolve_tx);
            },
            Tx::Chargeback(chargeback_tx) => {
                self.process_chargeback(chargeback_tx);
            },
        }
    }

    /// Opens the client's account if there is none and, unless the account is
    /// locked, credits it and registers the deposit.
    pub fn process_deposit(&mut self, deposit_tx: DepositTx)
        requires
            old(self).wf(),
            deposit_tx.amount.is_non_negative(),
        ensures
            final(self).wf(),
            final(self)@ == old(self)@.deposit(deposit_tx),
    {
        proof {
            lemma_deposit_consistent(self@, deposit_tx);
        }
        let client = match self.clients.get(&deposit_tx.client_id) {
            Some(client) => *client,
            None => Client::new(deposit_tx.client_id),
        };

        if client.locked {
            return ;  // Account is locked
        }
        let available = client.available.checked_add(deposit_tx.amount);
        let total = client.total.checked_add(deposit_tx.amount);
        match (available, total) {
            (Some(available), Some(total)) => {
                self.clients.insert(deposit_tx.client_id, Client { available, total, ..client });
                // The first deposit under an identifier stays
                if !self.deposits.contains_key(&deposit_tx.tx_id) {
                    self.deposits.insert(deposit_tx.tx_id, (deposit_tx, DepositStatus::Normal));
                }
            },
            _ => {
                self.clients.insert(deposit_tx.client_id, client);
            },
        }
        assert(self@ =~= old(self)@.deposit(deposit_tx));
    }

    /// Debits the client's account, where it exists, is not locked and has
    /// the amount available.
    pub fn process_withdrawal(&mut self, withdrawal_tx: WithdrawalTx)
        requires
            old(self).wf(),
            withdrawal_tx.amount.is_non_negative(),
        ensures
            final(self).wf(),
            final(self)@ == old(self)@.withdrawal(withdrawal_tx),
    {
        proof {
            lemma_withdrawal_consistent(self@, withdrawal_tx);
        }
        let client = match self.clients.get(&withdrawal_tx.client_id) {
            Some(client) => *client,
            None => {
                return ;  // Client doesn't exist
            },
        };

        if client.locked {
            return ;  // Account is locked
        }
        if client.available.lt(withdrawal_tx.amount) {
            return ;  // Insufficient funds
        }
        let available = client.available.checked_sub(withdrawal_tx.amount);
        let total = client.total.checked_sub(withdrawal_tx.amount);
        match (available, total) {
            (Some(available), Some(total)) => {
                self.clients.insert(
                    withdrawal_tx.client_id,
                    Client { available, total, ..client },
                );
            },
            _ => {},
        }
        assert(self@ =~= old(self)@.withdrawal(withdrawal_tx));
    }

    /// Freezes the amount of a deposit of the client's own that was not
    /// disputed before.
    pub fn process_dispute(&mut self, dispute_tx: DisputeTx)
        requires
            old(self).wf(),
        ensures
            final(self).wf(),
            final(self)@ == old(self)@.dispute(dispute_tx),
    {
        proof {
            lemma_dispute_consistent(self@, dispute_tx);
        }
        let client = match self.clients.get(&dispute_tx.client_id) {
            Some(client) => *client,
            None => {
                return ;  // Client doesn't exist
            },
        };
        let (deposit_tx, deposit_status) = match self.deposits.get(&dispute_tx.tx_id) {
            Some(deposit) => *deposit,
            None => {
                return ;  // Corresponding deposit doesn't exist
            },
        };

        if dispute_tx.client_id != deposit_tx.client_id {
            return ;  // Dispute client doesn't match deposit client
        }
        if deposit_status != DepositStatus::Normal {
            return ;  // Deposit is not in a state that can be disputed
        }
        // Available can go negative if funds were already withdrawn
        let available = client.available.checked_sub(deposit_tx.amount);
        let held = client.held.checked_add(deposit_tx.amount);
        match (available, held) {
            (Some(available), Some(held)) => {
                self.deposits.insert(dispute_tx.tx_id, (deposit_tx, DepositStatus::UnderDispute));
                self.clients.insert(dispute_tx.client_id, Client { available, held, ..client });
            },
            _ => {},
        }
        assert(self@ =~= old(self)@.dispute(dispute_tx));
    }

    /// Releases the amount of a deposit under dispute.
    pub fn process_resolve(&mut self, resolve_tx: ResolveTx)
        requires
            old(self).wf(),
        ensures
            final(self).wf(),
            final(self)@ == old(self)@.resolve(resolve_tx),
    {
        proof {
            lemma_resolve_consistent(self@, resolve_tx);
        }
        let client = match self.clients.get(&resolve_tx.client_id) {
            Some(client) => *client,
            None => {
                return ;  // Client doesn't exist
            },
        };
        let (deposit_tx, deposit_status) = match self.deposits.get(&resolve_tx.tx_id) {
            Some(deposit) => *deposit,
            None => {
                return ;  // Corresponding deposit doesn't exist
            },
        };

        if resolve_tx.client_id != deposit_tx.client_id {
            return ;  // Resolve client doesn't match deposit client
        }
        if deposit_status != DepositStatus::UnderDispute {
            return ;  // Deposit is not in a state that can be resolved
        }
        let available = client.available.checked_add(deposit_tx.amount);
        let held = client.held.checked_sub(deposit_tx.amount);
        match (available, held) {
            (Some(available), Some(held)) => {
                self.deposits.insert(resolve_tx.tx_id, (deposit_tx, DepositStatus::Resolved));
                self.clients.insert(resolve_tx.client_id, Client { available, held, ..client });
            },
            _ => {},
        }
        assert(self@ =~= old(self)@.resolve(resolve_tx));
    }

    /// Reverses a deposit under dispute and locks the account.
    pub fn process_chargeback(&mut self, chargeback_tx: ChargebackTx)
        requires
            old(self).wf(),
        ensures
            final(self).wf(),
            final(self)@ == old(self)@.chargeback(chargeback_tx),
    {
        proof {
            lemma_chargeback_consistent(self@, chargeback_tx);
        }
        let client = match self.clients.get(&chargeback_tx.client_id) {
            Some(client) => *client,
            None => {
                return ;  // Client doesn't exist
            },
        };
        let (deposit_tx, deposit_status) = match self.deposits.get(&chargeback_tx.tx_id) {
            Some(deposit) => *deposit,
            None => {
                return ;  // Corresponding deposit doesn't exist
            },
        };

        if chargeback_tx.client_id != deposit_tx.client_id {
            return ;  // Chargeback client doesn't match deposit client
        }
        if deposit_status != DepositStatus::UnderDispute {
            return ;  // Deposit is not in a state that can be charged back
        }
        let total = client.total.checked_sub(deposit_tx.amount);
        let held = client.held.checked_sub(deposit_tx.amount);
        match (total, held) {
            (Some(total), Some(held)) => {
                self.deposits.insert(
                    chargeback_tx.tx_id,
                    (deposit_tx, DepositStatus::ChargedBack),
                );
                self.clients.insert(
                    chargeback_tx.client_id,
                    Client { total, held, locked: true, ..client },
                );
            },
            _ => {},
        }
        assert(self@ =~= old(self)@.chargeback(chargeback_tx));
    }
}

} // verus!
