//! Authorization and ledger core of a cross-chain asset bridge: a role
//! registry (owner, admins, operators), a token policy store, a signer
//! registry, an append/overwrite swap ledger, and an operator-controlled
//! approval gate, all persisted through the hosting key-value store.

pub mod error;
pub mod laws;
pub mod model;
pub mod msg;
pub mod state;
pub mod store;
pub mod text;
