//! Identifiers, and a record as it is read from the input.

use crate::types::amount::Amount;
use vstd::prelude::*;

verus! {

/// Identifies a client, and with it the client's account.
pub type ClientId = u16;

/// Identifies a transaction.
pub type TxId = u32;

/// One record of the input: the kind of transaction as a token, the client,
/// the transaction, and an amount where the record has one.
#[derive(Debug)]
pub struct CsvRow {
    pub kind: String,
    pub client: ClientId,
    pub tx: TxId,
    pub amount: Option<Amount>,
}

} // verus!
