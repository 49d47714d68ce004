//! Plain request and response payloads of the bridge core. Addresses,
//! token symbols and transaction ids are opaque strings; amounts are
//! unsigned 128-bit integers with no implied decimal scale.

use vstd::prelude::*;

verus! {

/// The payload of one swap request, as the external swap-processing flow
/// hands it in.
#[derive(Clone, Debug)]
pub struct SwapMessage {
    pub cur_token: String,
    pub des_token: String,
    pub cur_user: String,
    pub des_user: String,
    pub amount: u128,
}

/// The caller identity that the hosting environment attaches to an
/// incoming message.
#[derive(Clone, Debug)]
pub struct MessageInfo {
    pub sender: String,
}

/// One key/value pair of the audit record of a successful mutation.
#[derive(Clone, Debug, PartialEq, Eq)]
pub struct Attribute {
    pub key: String,
    pub value: String,
}

/// The audit record that every successful mutation emits: the operation
/// name followed by its changed fields, for off-chain observability.
#[derive(Clone, Debug, PartialEq, Eq)]
pub struct Response {
    pub attributes: Vec<Attribute>,
}

} // verus!
