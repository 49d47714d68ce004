//! Mathematical model of the bridge core: the role registry, token policy
//! store, signer registry, swap ledger and approval gate, together with the
//! pure authorization policy and the state transitions that the executable
//! operations are specified against.

use vstd::prelude::*;

verus! {

/// Mathematical view of one swap-ledger record.
pub struct SwapdataView {
    pub cur_token: Seq<char>,
    pub des_token: Seq<char>,
    pub cur_user: Seq<char>,
    pub des_user: Seq<char>,
    pub amount: u128,
    pub side: Seq<char>,
}

/// The sentinel record standing for an absent swap-ledger entry: empty
/// string fields, amount zero, and the side tag "NaN".
pub open spec fn sentinel_swap() -> SwapdataView {
    SwapdataView {
        cur_token: Seq::empty(),
        des_token: Seq::empty(),
        cur_user: Seq::empty(),
        des_user: Seq::empty(),
        amount: 0,
        side: "NaN"@,
    }
}

/// The full mathematical state of the bridge core. Addresses, token symbols
/// and transaction ids are opaque strings; amounts are unsigned 128-bit
/// integers; the signer key is an opaque byte string.
#[verifier::ext_equal]
pub struct BridgeModel {
    /// The sole root authority, once seeded at instantiation.
    pub owner: Option<Seq<char>>,
    /// Active-admin flag per address.
    pub admins: Map<Seq<char>, bool>,
    /// Active-operator flag per address.
    pub operators: Map<Seq<char>, bool>,
    /// Source-acceptance flag per token symbol.
    pub accepted_source: Map<Seq<char>, bool>,
    /// Destination-acceptance flag per token symbol.
    pub accepted_destination: Map<Seq<char>, bool>,
    /// Swap cap per token symbol.
    pub max_swap_amounts: Map<Seq<char>, u128>,
    /// The swap ledger, keyed by transaction id.
    pub swaps: Map<Seq<char>, SwapdataView>,
    /// Operator approval flag per transaction id.
    pub approvals: Map<Seq<char>, bool>,
    /// The single active signer public key.
    pub signer: Option<Seq<u8>>,
}

/// The state of a freshly created store, before the owner is seeded.
pub open spec fn initial_model() -> BridgeModel {
    BridgeModel {
        owner: None,
        admins: Map::empty(),
        operators: Map::empty(),
        accepted_source: Map::empty(),
        accepted_destination: Map::empty(),
        max_swap_amounts: Map::empty(),
        swaps: Map::empty(),
        approvals: Map::empty(),
        signer: None,
    }
}

/// A store is seeded once instantiation has persisted an owner; every
/// operation of the core runs against a seeded store.
pub open spec fn seeded(m: BridgeModel) -> bool {
    m.owner is Some
}

/// The three roles of the authorization matrix.
pub enum Role {
    Owner,
    Admin,
    Operator,
}

/// Admin status of an address: present with flag `true`; absence means
/// "not an admin", never an error.
pub open spec fn is_admin_spec(m: BridgeModel, user: Seq<char>) -> bool {
    m.admins.contains_key(user) && m.admins[user]
}

/// Operator status of an address, defaulting to `false` when absent.
pub open spec fn is_operator_spec(m: BridgeModel, user: Seq<char>) -> bool {
    m.operators.contains_key(user) && m.operators[user]
}

/// Source-acceptance of a token, defaulting to `false` when never configured.
pub open spec fn is_accepted_token_spec(m: BridgeModel, token: Seq<char>) -> bool {
    m.accepted_source.contains_key(token) && m.accepted_source[token]
}

/// Destination-acceptance of a token, defaulting to `false` when never
/// configured.
pub open spec fn is_accepted_des_token_spec(m: BridgeModel, token: Seq<char>) -> bool {
    m.accepted_destination.contains_key(token) && m.accepted_destination[token]
}

/// The swap cap of a token, defaulting to `0` when never configured.
pub open spec fn max_swap_amount_spec(m: BridgeModel, token: Seq<char>) -> u128 {
    if m.max_swap_amounts.contains_key(token) {
        m.max_swap_amounts[token]
    } else {
        0
    }
}

/// The ledger record under a transaction id, or the sentinel when absent.
pub open spec fn swap_data_spec(m: BridgeModel, transaction_id: Seq<char>) -> SwapdataView {
    if m.swaps.contains_key(transaction_id) {
        m.swaps[transaction_id]
    } else {
        sentinel_swap()
    }
}

/// Approval status of a transaction id, defaulting to `false` when absent.
pub open spec fn is_approved_spec(m: BridgeModel, transaction_id: Seq<char>) -> bool {
    m.approvals.contains_key(transaction_id) && m.approvals[transaction_id]
}

/// The active signer key, or the empty byte string when none was ever set.
pub open spec fn signer_spec(m: BridgeModel) -> Seq<u8> {
    match m.signer {
        Some(key) => key,
        None => Seq::empty(),
    }
}

/// The one authorization policy of the core: whether `sender` holds `role`
/// in state `m`. Every mutating operation consults exactly this predicate
/// over the currently persisted state.
pub open spec fn authorized(m: BridgeModel, role: Role, sender: Seq<char>) -> bool {
    match role {
        Role::Owner => m.owner == Some(sender),
        Role::Admin => is_admin_spec(m, sender),
        Role::Operator => is_operator_spec(m, sender),
    }
}

/// Whether `amount` passes the swap-amount check against cap `cap`: a swap
/// moves a positive amount no greater than the cap.
pub open spec fn swap_amount_allowed(cap: u128, amount: u128) -> bool {
    0 < amount <= cap
}

/// State after reassigning ownership.
pub open spec fn with_owner(m: BridgeModel, user: Seq<char>) -> BridgeModel {
    BridgeModel { owner: Some(user), ..m }
}

/// State after setting the admin flag of an address.
pub open spec fn with_admin(m: BridgeModel, user: Seq<char>, status: bool) -> BridgeModel {
    BridgeModel { admins: m.admins.insert(user, status), ..m }
}

/// State after setting the operator flag of an address.
pub open spec fn with_operator(m: BridgeModel, user: Seq<char>, status: bool) -> BridgeModel {
    BridgeModel { operators: m.operators.insert(user, status), ..m }
}

/// State after setting the source-acceptance flag of a token.
pub open spec fn with_accepted_token(m: BridgeModel, token: Seq<char>, status: bool) -> BridgeModel {
    BridgeModel { accepted_source: m.accepted_source.insert(token, status), ..m }
}

/// State after setting the destination-acceptance flag of a token.
pub open spec fn with_accepted_des_token(
    m: BridgeModel,
    token: Seq<char>,
    status: bool,
) -> BridgeModel {
    BridgeModel { accepted_destination: m.accepted_destination.insert(token, status), ..m }
}

/// State after overwriting the swap cap of a token.
pub open spec fn with_max_swap_amount(m: BridgeModel, token: Seq<char>, amount: u128) -> BridgeModel {
    BridgeModel { max_swap_amounts: m.max_swap_amounts.insert(token, amount), ..m }
}

/// State after writing a ledger record: an unconditional overwrite, with no
/// existence check on the transaction id.
pub open spec fn with_swap(
    m: BridgeModel,
    transaction_id: Seq<char>,
    record: SwapdataView,
) -> BridgeModel {
    BridgeModel { swaps: m.swaps.insert(transaction_id, record), ..m }
}

/// State after setting the approval flag of a transaction id.
pub open spec fn with_approval(
    m: BridgeModel,
    transaction_id: Seq<char>,
    status: bool,
) -> BridgeModel {
    BridgeModel { approvals: m.approvals.insert(transaction_id, status), ..m }
}

/// State after overwriting the single active signer key.
pub open spec fn with_signer(m: BridgeModel, key: Seq<u8>) -> BridgeModel {
    BridgeModel { signer: Some(key), ..m }
}

} // verus!
