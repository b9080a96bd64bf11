//! Batch workflow against an Ethereum-compatible chain, as a verified core.
//!
//! The crate derives signers from a mnemonic, plans the single call that pays
//! many receivers, and sequences one mint transaction per signer. Network work
//! is not done here: each operation is a state machine that names the next
//! action to perform and takes the node's answer back as an event.

pub mod account;
pub mod distributor;
pub mod error;
pub mod executor;
pub mod mint;
pub mod primitives;
