//! A client's account.

use crate::types::amount::Amount;
use crate::types::common::ClientId;
use vstd::prelude::*;

verus! {

/// The state of one account.
#[derive(Debug, Clone, Copy)]
pub struct Client {
    pub id: ClientId,
    /// Funds that may be withdrawn.
    pub available: Amount,
    /// Funds frozen by disputes that are still open.
    pub held: Amount,
    /// Available and held funds together.
    pub total: Amount,
    /// Set by a chargeback, and never cleared.
    pub locked: bool,
}

impl Client {
    /// An empty, unlocked account for the client `id`.
    pub open spec fn spec_new(id: ClientId) -> Client {
        Client {
            id,
            available: Amount::zero(),
            held: Amount::zero(),
            total: Amount::zero(),
            locked: false,
        }
    }

    /// Whether the total is the sum of the available and the held funds.
    pub open spec fn balanced(self) -> bool {
        self.total.value() == self.available.value() + self.held.value()
    }

    /// An empty, unlocked account for the client `id`.
    #[verifier::when_used_as_spec(spec_new)]
    pub fn new(id: ClientId) -> (r: Client)
        ensures
            r == Client::spec_new(id),
    {
        Client {
            id,
            available: Amount::zero(),
            held: Amount::zero(),
            total: Amount::zero(),
            locked: false,
        }
    }
}

} // verus!
