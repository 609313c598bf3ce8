//! A payments engine: it takes deposits, withdrawals, disputes, resolves and
//! chargebacks one at a time and keeps, for every client, an account with
//! available, held and total funds.
//!
//! - [`types`] holds the data: amounts, accounts, transactions, and a record
//!   of the input.
//! - [`ledger`] states the rules of the five kinds of transaction on a
//!   mathematical ledger.
//! - [`engine`] is the ledger in memory; each of its functions does what the
//!   rules of [`ledger`] say.
//! - [`laws`] proves what holds of the ledger whatever it is given.
//!
//! Amounts are decimals as `rust_decimal` has them, and `rust_decimal` adds
//! and subtracts them. The engine takes a sum or a difference only where it
//! is exact, so balances are never rounded.

pub mod engine;
pub mod laws;
pub mod ledger;
pub mod types;
