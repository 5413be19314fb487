//! Core of an agent-facing gateway to a margin-trading exchange: canonical
//! action serialization and hashing, the two signature protocols (phantom-agent
//! hashing for trading actions, full typed-data signing for identity-level
//! approvals), the nonce sequencer, agent-key bootstrap helpers, and the
//! TTL/push market-data cache.

pub mod action;
pub mod agent;
pub mod bytes;
pub mod cache;
pub mod errors;
pub mod exchange;
pub mod gateway;
pub mod hasher;
pub mod keccak;
pub mod market;
pub mod msgpack;
pub mod nonce;
pub mod records;
pub mod signing;
pub mod text;
pub mod typed_data;

pub use nonce::NonceSequencer;
