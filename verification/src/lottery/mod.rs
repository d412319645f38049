//! The lottery contract: fast draws for five players, daily draws with any
//! number of tickets, and jackpots fed by both.
pub mod state;
pub mod error;
pub mod msg;
pub mod players;
pub mod rules;
pub mod contract;
pub mod laws;
pub mod history;
