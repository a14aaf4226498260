//! A pooled-backstop escrow: agreements that an arbiter approves or that are
//! refunded, backed by a shared coverage pool.

pub mod assoc;
pub mod balance;
pub mod contract;
pub mod error;
pub mod laws;
pub mod msg;
pub mod state;
