//! The airdrop contract: owners publish merkle roots of (address, amount)
//! lists in stages, and each address claims its amount once per stage with a
//! merkle proof.
pub mod order;
pub mod hashing;
pub mod merkle;
pub mod state;
pub mod error;
pub mod contract;
pub mod laws;
pub mod history;
