//! Pool pricing and swap-instruction assembly for a concentrated-liquidity
//! AMM gateway: the verified core that the HTTP layer drives.
pub mod key;
pub mod swap;
pub mod addresses;
pub mod assembly;
pub mod envelope;
pub mod json;
pub mod simulation;
pub mod registry;
pub mod refresh;
pub mod types;
pub mod requests;
pub mod mint;
