//! Event ingestion and coordination for a two-way ERC20 token bridge relay.
//!
//! Each chain's `Network` decides which logs become transfers and which new
//! heads trigger anchors; `ConfirmationWaiter` decides when a transaction is
//! buried deep enough; `Relay` routes confirmed records to the peer chain.
//! Transports, subscriptions and timers stay with the caller.

pub mod confirm;
pub mod errors;
pub mod hex;
pub mod network;
pub mod settings;
pub mod types;
pub mod uint;
