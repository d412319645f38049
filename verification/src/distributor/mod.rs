//! The distributor contract: it splits the balance it holds in a token
//! between an operations wallet, a collector and an "angel" wallet, and keeps
//! a running total of what the angel received.
pub mod state;
pub mod collector;
pub mod error;
pub mod contract;
pub mod laws;
pub mod history;
