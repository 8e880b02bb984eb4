//! A verified single-hook event relay: on a fixed interval the relay reads one
//! value from one smart contract over JSON-RPC and forwards it to one webhook
//! as a JSON notification.
//!
//! The library holds the relay's logic — configuration handling, the durable
//! config store, the byte codec for the persisted record, contract-call
//! request construction and reply decoding, webhook payload construction, and
//! the per-tick cycle state machine. The host that supplies the timer, the
//! durable memory and the outbound HTTP capability drives the
//! [`scheduler::Relay`] from outside: it sends each request the relay hands
//! out and feeds the outcome back as the next call on the relay.

pub mod abi;
pub mod codec;
pub mod config;
pub mod jsonrpc;
pub mod scheduler;
pub mod store;
pub mod textfmt;
pub mod webhook;
