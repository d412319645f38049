//! Verified decision logic of the Pluto contracts: the lottery, the merkle
//! airdrop and the fee distributor. Each contract's entry points read their
//! inputs from chain storage elsewhere and hand plain values to the functions
//! here, which decide the outcome.
pub mod decimal;
pub mod std_error;
pub mod lottery;
pub mod airdrop;
pub mod distributor;
