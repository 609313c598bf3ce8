//! The data the engine works on.

pub mod amount;
pub mod client;
pub mod common;
pub mod transactions;
