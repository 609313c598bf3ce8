//! What holds of the ledger whatever transactions it is given.

use crate::ledger::{DepositStatus, LedgerState};
use crate::types::amount::Amount;
use crate::types::common::{ClientId, CsvRow, TxId};
use crate::types::transactions::{ChargebackTx, DepositTx, DisputeTx, ResolveTx, Tx, WithdrawalTx};
use vstd::prelude::*;
use vstd::std_specs::convert::TryFromSpec;

verus! {

/// Where two states differ in what at most one deposit, `tx`, adds to the
/// held funds of `client`, the amounts under dispute differ by as much.
proof fn lemma_disputed_below_differs(
    before: LedgerState,
    after: LedgerState,
    client: ClientId,
    tx: TxId,
    n: nat,
)
    requires
        n <= 0x1_0000_0000,
        forall|t: TxId|
            t != tx ==> #[trigger] after.disputed_amount(client, t) == before.disputed_amount(
                client,
                t,
            ),
    ensures
        after.disputed_below(client, n) == before.disputed_below(client, n) + if tx < n {
            after.disputed_amount(client, tx) - before.disputed_amount(client, tx)
        } else {
            0
        },
    decreases n,
{
    if n > 0 {
        lemma_disputed_below_differs(before, after, client, tx, (n - 1) as nat);
    }
}

/// Where no deposit has a negative amount, no amount under dispute is
/// negative.
proof fn lemma_disputed_below_not_negative(state: LedgerState, client: ClientId, n: nat)
    requires
        forall|t: TxId| #[trigger]
            state.deposits.contains_key(t) ==> state.deposits[t].0.amount.is_non_negative(),
    ensures
        state.disputed_below(client, n) >= 0,
    decreases n,
{
    if n > 0 {
        lemma_disputed_below_not_negative(state, client, (n - 1) as nat);
        let t = (n - 1) as TxId;
        if state.deposits.contains_key(t) {
            state.deposits[t].0.amount.lemma_sign();
        }
    }
}

/// A client without a deposit has nothing under dispute.
proof fn lemma_disputed_below_none(state: LedgerState, client: ClientId, n: nat)
    requires
        forall|t: TxId| #[trigger]
            state.deposits.contains_key(t) ==> state.deposits[t].0.client_id != client,
    ensures
        state.disputed_below(client, n) == 0,
    decreases n,
{
    if n > 0 {
        lemma_disputed_below_none(state, client, (n - 1) as nat);
    }
}

/// In a consistent ledger every account is sound.
pub proof fn lemma_consistent_is_sound(state: LedgerState, client: ClientId)
    requires
        state.consistent(),
        state.accounts.contains_key(client),
    ensures
        state.sound_account(client),
{
    lemma_disputed_below_not_negative(state, client, 0x1_0000_0000);
}

/// A deposit of zero or more keeps a consistent ledger consistent.
pub proof fn lemma_deposit_consistent(state: LedgerState, tx: DepositTx)
    requires
        state.consistent(),
        tx.amount.is_non_negative(),
    ensures
        state.deposit(tx).consistent(),
{
    let after = state.deposit(tx);
    Amount::lemma_zero();
    if !state.accounts.contains_key(tx.client_id) {
        lemma_disputed_below_none(state, tx.client_id, 0x1_0000_0000);
    }
    assert forall|c: ClientId| #[trigger] after.accounts.contains_key(c) implies {
        &&& after.accounts[c].id == c
        &&& after.accounts[c].balanced()
        &&& after.accounts[c].held.value() == after.disputed(c)
    } by {
        lemma_disputed_below_differs(state, after, c, tx.tx_id, 0x1_0000_0000);
    }
}

/// A withdrawal keeps a consistent ledger consistent.
pub proof fn lemma_withdrawal_consistent(state: LedgerState, tx: WithdrawalTx)
    requires
        state.consistent(),
    ensures
        state.withdrawal(tx).consistent(),
{
    let after = state.withdrawal(tx);
    assert forall|c: ClientId| #[trigger] after.accounts.contains_key(c) implies {
        &&& after.accounts[c].id == c
        &&& after.accounts[c].balanced()
        &&& after.accounts[c].held.value() == after.disputed(c)
    } by {
        lemma_disputed_below_differs(state, after, c, tx.tx_id, 0x1_0000_0000);
    }
}

/// A dispute keeps a consistent ledger consistent.
pub proof fn lemma_dispute_consistent(state: LedgerState, tx: DisputeTx)
    requires
        state.consistent(),
    ensures
        state.dispute(tx).consistent(),
{
    let after = state.dispute(tx);
    assert forall|c: ClientId| #[trigger] after.accounts.contains_key(c) implies {
        &&& after.accounts[c].id == c
        &&& after.accounts[c].balanced()
        &&& after.accounts[c].held.value() == after.disputed(c)
    } by {
        lemma_disputed_below_differs(state, after, c, tx.tx_id, 0x1_0000_0000);
    }
}

/// Resolving a dispute keeps a consistent ledger consistent.
pub proof fn lemma_resolve_consistent(state: LedgerState, tx: ResolveTx)
    requires
        state.consistent(),
    ensures
        state.resolve(tx).consistent(),
{
    let after = state.resolve(tx);
    assert forall|c: ClientId| #[trigger] after.accounts.contains_key(c) implies {
        &&& after.accounts[c].id == c
        &&& after.accounts[c].balanced()
        &&& after.accounts[c].held.value() == after.disputed(c)
    } by {
        lemma_disputed_below_differs(state, after, c, tx.tx_id, 0x1_0000_0000);
    }
}

/// A chargeback keeps a consistent ledger consistent.
pub proof fn lemma_chargeback_consistent(state: LedgerState, tx: ChargebackTx)
    requires
        state.consistent(),
    ensures
        state.chargeback(tx).consistent(),
{
    let after = state.chargeback(tx);
    assert forall|c: ClientId| #[trigger] after.accounts.contains_key(c) implies {
        &&& after.accounts[c].id == c
        &&& after.accounts[c].balanced()
        &&& after.accounts[c].held.value() == after.disputed(c)
    } by {
        lemma_disputed_below_differs(state, after, c, tx.tx_id, 0x1_0000_0000);
    }
}

/// A valid transaction keeps a consistent ledger consistent.
pub proof fn lemma_apply_consistent(state: LedgerState, tx: Tx)
    requires
        state.consistent(),
        tx.valid(),
    ensures
        state.apply(tx).consistent(),
{
    match tx {
        Tx::Deposit(deposit_tx) => lemma_deposit_consistent(state, deposit_tx),
        Tx::Withdrawal(withdrawal_tx) => lemma_withdrawal_consistent(state, withdrawal_tx),
        Tx::Dispute(dispute_tx) => lemma_dispute_consistent(state, dispute_tx),
        Tx::Resolve(resolve_tx) => lemma_resolve_consistent(state, resolve_tx),
        Tx::Chargeback(chargeback_tx) => lemma_chargeback_consistent(state, chargeback_tx),
    }
}

/// Valid transactions keep a consistent ledger consistent.
pub proof fn lemma_apply_all_consistent(state: LedgerState, txs: Seq<Tx>)
    requires
        state.consistent(),
        forall|i: int| 0 <= i < txs.len() ==> (#[trigger] txs[i]).valid(),
    ensures
        state.apply_all(txs).consistent(),
    decreases txs.len(),
{
    if txs.len() > 0 {
        lemma_apply_all_consistent(state, txs.drop_last());
        lemma_apply_consistent(state.apply_all(txs.drop_last()), txs.last());
    }
}

/// Balances stay sound: after any number of the transactions of a sequence
/// of valid transactions, every account's total is its available and its
/// held funds together, and its held funds are not negative.
pub proof fn law_accounts_stay_sound(txs: Seq<Tx>, n: int, client: ClientId)
    requires
        forall|i: int| 0 <= i < txs.len() ==> (#[trigger] txs[i]).valid(),
        0 <= n <= txs.len(),
        LedgerState::run(txs.take(n)).accounts.contains_key(client),
    ensures
        LedgerState::run(txs.take(n)).sound_account(client),
{
    lemma_apply_all_consistent(LedgerState::empty(), txs.take(n));
    lemma_consistent_is_sound(LedgerState::run(txs.take(n)), client);
}

/// Records of the input, whatever they hold, keep a consistent ledger
/// consistent.
pub proof fn lemma_apply_rows_consistent(state: LedgerState, rows: Seq<CsvRow>)
    requires
        state.consistent(),
    ensures
        state.apply_rows(rows).consistent(),
    decreases rows.len(),
{
    if rows.len() > 0 {
        lemma_apply_rows_consistent(state, rows.drop_last());
        let before = state.apply_rows(rows.drop_last());
        match <Tx as TryFromSpec<CsvRow>>::try_from_spec(rows.last()) {
            Ok(tx) => {
                if tx.valid() {
                    lemma_apply_consistent(before, tx);
                }
            },
            Err(_) => {},
        }
    }
}

/// No input breaks the ledger: after any number of the records of any
/// input, every account's total is its available and its held funds
/// together, and its held funds are not negative.
pub proof fn law_any_input_leaves_accounts_sound(rows: Seq<CsvRow>, n: int, client: ClientId)
    requires
        0 <= n <= rows.len(),
        LedgerState::empty().apply_rows(rows.take(n)).accounts.contains_key(client),
    ensures
        LedgerState::empty().apply_rows(rows.take(n)).sound_account(client),
{
    lemma_apply_rows_consistent(LedgerState::empty(), rows.take(n));
    lemma_consistent_is_sound(LedgerState::empty().apply_rows(rows.take(n)), client);
}

/// A locked account stays locked whatever transaction follows.
pub proof fn lemma_lock_survives(state: LedgerState, tx: Tx, client: ClientId)
    requires
        state.accounts.contains_key(client),
        state.accounts[client].locked,
    ensures
        state.apply(tx).accounts.contains_key(client),
        state.apply(tx).accounts[client].locked,
{
}

/// A lock is permanent: once an account is locked, it is locked after any
/// further transactions, valid or not.
pub proof fn law_lock_is_permanent(state: LedgerState, txs: Seq<Tx>, client: ClientId)
    requires
        state.accounts.contains_key(client),
        state.accounts[client].locked,
    ensures
        state.apply_all(txs).accounts.contains_key(client),
        state.apply_all(txs).accounts[client].locked,
    decreases txs.len(),
{
    if txs.len() > 0 {
        law_lock_is_permanent(state, txs.drop_last(), client);
        lemma_lock_survives(state.apply_all(txs.drop_last()), txs.last(), client);
    }
}

/// Disputing twice is disputing once: the second of two equal disputes in a
/// row changes nothing.
pub proof fn law_dispute_is_idempotent(state: LedgerState, tx: DisputeTx)
    ensures
        state.dispute(tx).dispute(tx) == state.dispute(tx),
{
}

/// A settled dispute is final: on a deposit that is resolved or charged
/// back, a dispute, a resolve and a chargeback change nothing, whichever
/// client they name.
pub proof fn law_terminal_status_is_final(state: LedgerState, client: ClientId, tx: TxId)
    requires
        state.deposits.contains_key(tx),
        state.deposits[tx].1.is_terminal(),
    ensures
        state.dispute(DisputeTx { client_id: client, tx_id: tx }) == state,
        state.resolve(ResolveTx { client_id: client, tx_id: tx }) == state,
        state.chargeback(ChargebackTx { client_id: client, tx_id: tx }) == state,
{
}

/// A registered deposit stays registered with the client and the amount it
/// was made with, and its status moves only from normal to under dispute,
/// and from under dispute to resolved or to charged back.
pub proof fn law_status_moves_forward(state: LedgerState, tx: Tx, deposit: TxId)
    requires
        state.deposits.contains_key(deposit),
    ensures
        state.apply(tx).deposits.contains_key(deposit),
        state.apply(tx).deposits[deposit].0 == state.deposits[deposit].0,
        ({
            let before = state.deposits[deposit].1;
            let after = state.apply(tx).deposits[deposit].1;
            ||| after == before
            ||| before == DepositStatus::Normal && after == DepositStatus::UnderDispute
            ||| before == DepositStatus::UnderDispute && after.is_terminal()
        }),
{
}

/// An account is never closed, and only a deposit opens one: for the client
/// that it names.
pub proof fn law_accounts_open_by_deposit(state: LedgerState, tx: Tx, client: ClientId)
    ensures
        state.accounts.contains_key(client) ==> state.apply(tx).accounts.contains_key(client),
        !state.accounts.contains_key(client) && state.apply(tx).accounts.contains_key(client)
            ==> tx is Deposit && tx.client_id() == client,
{
}

/// A transaction touches no account but that of the client it names.
pub proof fn law_other_accounts_untouched(state: LedgerState, tx: Tx, client: ClientId)
    requires
        client != tx.client_id(),
    ensures
        state.apply(tx).accounts.contains_key(client) == state.accounts.contains_key(client),
        state.apply(tx).accounts[client] == state.accounts[client],
{
}

} // verus!
