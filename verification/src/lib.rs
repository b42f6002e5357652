//! Settlement core of an optimistic cross-chain message-relay hub.
//!
//! A sender submits a message together with a fee; a staked relayer
//! delivers it off-band and claims a reward by presenting an execution
//! proof; a fixed challenge window follows during which anyone may
//! present a fraud proof to slash the relayer's stake.  Unchallenged
//! messages finalize as successfully delivered.
//!
//! The hub is a pure state machine over plain values: the host that
//! supplies persistent storage, caller identity, the clock, and the
//! value-transfer primitive stands outside this crate and hands each
//! operation the caller address, the attached value, the current
//! timestamp, and the transfer outcome as arguments.

pub mod hub;
pub mod ledger;
pub mod types;

pub use hub::MessageHub;
pub use types::{Address, ChainConfig, Challenge, HubError, Message, RelayerInfo, Status};
