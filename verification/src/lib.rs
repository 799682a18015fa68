//! Funds-dispatch logic of a signet faucet: request validation, coin
//! selection, the send state machine, channel-funding requests and the
//! error taxonomy with its HTTP status mapping.

pub mod address;
pub mod coins;
pub mod config;
pub mod dispatch;
pub mod error;
pub mod open_channel;
pub mod raw_transaction;
pub mod transaction;
pub mod validate;
