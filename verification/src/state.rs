//! The operations of the bridge core. Every mutating operation first
//! authorizes the caller against the currently persisted role state, then
//! writes its own register and reports the mutation as an audit record;
//! every read is total, degrading to a documented default or sentinel when
//! a key is absent.

use vstd::prelude::*;
use vstd::string::StringExecFns;

use crate::error::ContractError;
use crate::model::{
    authorized, initial_model, is_accepted_des_token_spec, is_accepted_token_spec, is_admin_spec,
    is_approved_spec, is_operator_spec, max_swap_amount_spec, seeded, sentinel_swap, signer_spec,
    swap_amount_allowed, swap_data_spec, with_accepted_des_token, with_accepted_token, with_admin,
    with_approval, with_max_swap_amount, with_operator, with_owner, with_signer, with_swap, Role,
    SwapdataView,
};
use crate::msg::{Attribute, MessageInfo, Response, SwapMessage};
use crate::store::{
    load_accepted_des_token, load_accepted_token, load_admin, load_approval, load_max_swap_amount,
    load_operator, load_owner, load_signer, load_swap, model, new_store, save_accepted_des_token,
    save_accepted_token, save_admin, save_approval, save_max_swap_amount, save_operator,
    save_owner, save_signer, save_swap, BridgeStore,
};
use crate::text::{bool_string, bool_text};

verus! {

/// One swap-ledger record: the two token symbols, the two user addresses,
/// the amount moved, and the side tag that distinguishes the swap leg.
#[derive(Clone, Debug, PartialEq, Eq)]
pub struct Swapdata {
    pub cur_token: String,
    pub des_token: String,
    pub cur_user: String,
    pub des_user: String,
    pub amount: u128,
    pub side: String,
}

impl View for Swapdata {
    type V = SwapdataView;

    open spec fn view(&self) -> SwapdataView {
        SwapdataView {
            cur_token: self.cur_token@,
            des_token: self.des_token@,
            cur_user: self.cur_user@,
            des_user: self.des_user@,
            amount: self.amount,
            side: self.side@,
        }
    }
}

impl Swapdata {
    /// Builds the ledger record of a swap message, with the given side tag.
    pub fn default(swap_message: &SwapMessage, side: String) -> (r: Swapdata)
        ensures
            r@ == (SwapdataView {
                cur_token: swap_message.cur_token@,
                des_token: swap_message.des_token@,
                cur_user: swap_message.cur_user@,
                des_user: swap_message.des_user@,
                amount: swap_message.amount,
                side: side@,
            }),
    {
        Swapdata {
            cur_token: swap_message.cur_token.clone(),
            des_token: swap_message.des_token.clone(),
            cur_user: swap_message.cur_user.clone(),
            des_user: swap_message.des_user.clone(),
            amount: swap_message.amount,
            side: side,
        }
    }

    /// The sentinel record that stands for an absent ledger entry.
    pub fn empty_default() -> (r: Swapdata)
        ensures
            r@ == sentinel_swap(),
    {
        Swapdata {
            cur_token: String::new(),
            des_token: String::new(),
            cur_user: String::new(),
            des_user: String::new(),
            amount: 0,
            side: String::from_str("NaN"),
        }
    }
}

/// Seeds a fresh store with its owner: the one-time instantiation step.
pub fn instantiate(owner: String) -> (r: Result<BridgeStore, ContractError>)
    ensures
        r matches Ok(s) ==> model(s) == with_owner(initial_model(), owner@),
        r matches Ok(s) ==> seeded(model(s)),
        r is Err ==> r == Err::<BridgeStore, ContractError>(ContractError::Internal),
{
    let mut s = new_store();
    if save_owner(&mut s, &owner) {
        Ok(s)
    } else {
        Err(ContractError::Internal)
    }
}

/// The current owner. Instantiation has always seeded one.
pub fn get_owner(storage: &BridgeStore) -> (r: String)
    requires
        seeded(model(*storage)),
    ensures
        model(*storage).owner == Some(r@),
{
    load_owner(storage).unwrap()
}

/// Admin status of an address; absence means `false`, never an error.
pub fn is_admin(storage: &BridgeStore, user: String) -> (r: bool)
    ensures
        r == is_admin_spec(model(*storage), user@),
{
    match load_admin(storage, &user) {
        Some(value) => value,
        None => false,
    }
}

/// Operator status of an address; absence means `false`, never an error.
pub fn is_operator(storage: &BridgeStore, operator: String) -> (r: bool)
    ensures
        r == is_operator_spec(model(*storage), operator@),
{
    match load_operator(storage, &operator) {
        Some(value) => value,
        None => false,
    }
}

/// The one authorization check of the core: whether `sender` currently
/// holds `role`, read from the persisted role state.
pub fn has_role(storage: &BridgeStore, role: Role, sender: &String) -> (r: bool)
    requires
        seeded(model(*storage)),
    ensures
        r == authorized(model(*storage), role, sender@),
{
    match role {
        Role::Owner => {
            let owner = get_owner(storage);
            owner == *sender
        }
        Role::Admin => is_admin(storage, sender.clone()),
        Role::Operator => is_operator(storage, sender.clone()),
    }
}

/// Transfers ownership to `user`. Only the current owner may do so; the
/// new owner is persisted and announced in the audit record.
pub fn set_new_owner(storage: &mut BridgeStore, info: &MessageInfo, user: String) -> (r: Result<
    Response,
    ContractError,
>)
    requires
        seeded(model(*old(storage))),
    ensures
        seeded(model(*final(storage))),
        r == Err::<Response, ContractError>(ContractError::Unauthorized) <==> !authorized(
            model(*old(storage)),
            Role::Owner,
            info.sender@,
        ),
        r is Err ==> model(*final(storage)) == model(*old(storage)),
        r is Ok ==> model(*final(storage)) == with_owner(model(*old(storage)), user@),
        r matches Ok(resp) ==> resp.attributes@.len() == 1 && resp.attributes@[0].key@
            == "method"@ && resp.attributes@[0].value@ == "transfer_ownership"@,
{
    if !has_role(storage, Role::Owner, &info.sender) {
        return Err(ContractError::Unauthorized);
    }
    if save_owner(storage, &user) {
        let attributes = vec![
            Attribute {
                key: String::from_str("method"),
                value: String::from_str("transfer_ownership"),
            },
        ];
        Ok(Response { attributes })
    } else {
        Err(ContractError::Internal)
    }
}

/// Sets the admin flag of `user` to `status`. Only the owner may do so.
pub fn set_admin(
    storage: &mut BridgeStore,
    info: &MessageInfo,
    user: String,
    status: bool,
) -> (r: Result<Response, ContractError>)
    requires
        seeded(model(*old(storage))),
    ensures
        seeded(model(*final(storage))),
        r == Err::<Response, ContractError>(ContractError::Unauthorized) <==> !authorized(
            model(*old(storage)),
            Role::Owner,
            info.sender@,
        ),
        r is Err ==> model(*final(storage)) == model(*old(storage)),
        r is Ok ==> model(*final(storage)) == with_admin(model(*old(storage)), user@, status),
        r matches Ok(resp) ==> resp.attributes@.len() == 3 && resp.attributes@[0].key@
            == "method"@ && resp.attributes@[0].value@ == "set_admin"@ && resp.attributes@[1].key@
            == "user"@ && resp.attributes@[1].value@ == user@ && resp.attributes@[2].key@
            == "status"@ && resp.attributes@[2].value@ == bool_text(status),
{
    if !has_role(storage, Role::Owner, &info.sender) {
        return Err(ContractError::Unauthorized);
    }
    if save_admin(storage, &user, status) {
        let attributes = vec![
            Attribute { key: String::from_str("method"), value: String::from_str("set_admin") },
            Attribute { key: String::from_str("user"), value: user },
            Attribute { key: String::from_str("status"), value: bool_string(status) },
        ];
        Ok(Response { attributes })
    } else {
        Err(ContractError::Internal)
    }
}

/// Sets the operator flag of `operator` to `status`. Only an admin may do
/// so.
pub fn set_operator(
    storage: &mut BridgeStore,
    info: &MessageInfo,
    operator: String,
    status: bool,
) -> (r: Result<Response, ContractError>)
    requires
        seeded(model(*old(storage))),
    ensures
        seeded(model(*final(storage))),
        r == Err::<Response, ContractError>(ContractError::Unauthorized) <==> !authorized(
            model(*old(storage)),
            Role::Admin,
            info.sender@,
        ),
        r is Err ==> model(*final(storage)) == model(*old(storage)),
        r is Ok ==> model(*final(storage)) == with_operator(
            model(*old(storage)),
            operator@,
            status,
        ),
        r matches Ok(resp) ==> resp.attributes@.len() == 3 && resp.attributes@[0].key@
            == "method"@ && resp.attributes@[0].value@ == "set_operator"@
            && resp.attributes@[1].key@ == "operator"@ && resp.attributes@[1].value@ == operator@
            && resp.attributes@[2].key@ == "status"@ && resp.attributes@[2].value@ == bool_text(
            status,
        ),
{
    if !has_role(storage, Role::Admin, &info.sender) {
        return Err(ContractError::Unauthorized);
    }
    if save_operator(storage, &operator, status) {
        let attributes = vec![
            Attribute { key: String::from_str("method"), value: String::from_str("set_operator") },
            Attribute { key: String::from_str("operator"), value: operator },
            Attribute { key: String::from_str("status"), value: bool_string(status) },
        ];
        Ok(Response { attributes })
    } else {
        Err(ContractError::Internal)
    }
}

/// Sets the source-acceptance flag of `token` to `status`. Only an admin
/// may do so; a previously unseen token is created lazily, never an error.
pub fn set_accepted_token(
    storage: &mut BridgeStore,
    info: &MessageInfo,
    token: String,
    status: bool,
) -> (r: Result<Response, ContractError>)
    requires
        seeded(model(*old(storage))),
    ensures
        seeded(model(*final(storage))),
        r == Err::<Response, ContractError>(ContractError::Unauthorized) <==> !authorized(
            model(*old(storage)),
            Role::Admin,
            info.sender@,
        ),
        r is Err ==> model(*final(storage)) == model(*old(storage)),
        r is Ok ==> model(*final(storage)) == with_accepted_token(
            model(*old(storage)),
            token@,
            status,
        ),
        r matches Ok(resp) ==> resp.attributes@.len() == 3 && resp.attributes@[0].key@
            == "method"@ && resp.attributes@[0].value@ == "set_accepted_token"@
            && resp.attributes@[1].key@ == "accpeted_token"@ && resp.attributes@[1].value@
            == token@ && resp.attributes@[2].key@ == "status"@ && resp.attributes@[2].value@
            == bool_text(status),
{
    if !has_role(storage, Role::Admin, &info.sender) {
        return Err(ContractError::Unauthorized);
    }
    if save_accepted_token(storage, &token, status) {
        let attributes = vec![
            Attribute {
                key: String::from_str("method"),
                value: String::from_str("set_accepted_token"),
            },
            Attribute { key: String::from_str("accpeted_token"), value: token },
            Attribute { key: String::from_str("status"), value: bool_string(status) },
        ];
        Ok(Response { attributes })
    } else {
        Err(ContractError::Internal)
    }
}

/// Source-acceptance of a token; a token never configured is not accepted.
pub fn is_accepted_token(storage: &BridgeStore, token: &String) -> (r: bool)
    ensures
        r == is_accepted_token_spec(model(*storage), token@),
{
    match load_accepted_token(storage, token) {
        Some(value) => value,
        None => false,
    }
}

/// Sets the destination-acceptance flag of `token` to `status`. Only an
/// admin may do so.
pub fn set_accepted_des_token(
    storage: &mut BridgeStore,
    info: &MessageInfo,
    token: String,
    status: bool,
) -> (r: Result<Response, ContractError>)
    requires
        seeded(model(*old(storage))),
    ensures
        seeded(model(*final(storage))),
        r == Err::<Response, ContractError>(ContractError::Unauthorized) <==> !authorized(
            model(*old(storage)),
            Role::Admin,
            info.sender@,
        ),
        r is Err ==> model(*final(storage)) == model(*old(storage)),
        r is Ok ==> model(*final(storage)) == with_accepted_des_token(
            model(*old(storage)),
            token@,
            status,
        ),
        r matches Ok(resp) ==> resp.attributes@.len() == 3 && resp.attributes@[0].key@
            == "method"@ && resp.attributes@[0].value@ == "set_des_accepted_token"@
            && resp.attributes@[1].key@ == "des_accpeted_token"@ && resp.attributes@[1].value@
            == token@ && resp.attributes@[2].key@ == "status"@ && resp.attributes@[2].value@
            == bool_text(status),
{
    if !has_role(storage, Role::Admin, &info.sender) {
        return Err(ContractError::Unauthorized);
    }
    if save_accepted_des_token(storage, &token, status) {
        let attributes = vec![
            Attribute {
                key: String::from_str("method"),
                value: String::from_str("set_des_accepted_token"),
            },
            Attribute { key: String::from_str("des_accpeted_token"), value: token },
            Attribute { key: String::from_str("status"), value: bool_string(status) },
        ];
        Ok(Response { attributes })
    } else {
        Err(ContractError::Internal)
    }
}

/// Destination-acceptance of a token, defaulting to `false`.
pub fn is_accepted_des_token(storage: &BridgeStore, token: &String) -> (r: bool)
    ensures
        r == is_accepted_des_token_spec(model(*storage), token@),
{
    match load_accepted_des_token(storage, token) {
        Some(value) => value,
        None => false,
    }
}

/// Overwrites the swap cap of `token` in full. Only an admin may do so.
pub fn set_max_swap_amount(
    storage: &mut BridgeStore,
    info: &MessageInfo,
    token: String,
    max_amount: u128,
) -> (r: Result<Response, ContractError>)
    requires
        seeded(model(*old(storage))),
    ensures
        seeded(model(*final(storage))),
        r == Err::<Response, ContractError>(ContractError::Unauthorized) <==> !authorized(
            model(*old(storage)),
            Role::Admin,
            info.sender@,
        ),
        r is Err ==> model(*final(storage)) == model(*old(storage)),
        r is Ok ==> model(*final(storage)) == with_max_swap_amount(
            model(*old(storage)),
            token@,
            max_amount,
        ),
        r matches Ok(resp) ==> resp.attributes@.len() == 3 && resp.attributes@[0].key@
            == "method"@ && resp.attributes@[0].value@ == "set_max_swap_amount"@
            && resp.attributes@[1].key@ == "token"@ && resp.attributes@[1].value@ == token@
            && resp.attributes@[2].key@ == "max_amount"@ && resp.attributes@[2].value@
            == crate::text::decimal_text(max_amount as int),
{
    if !has_role(storage, Role::Admin, &info.sender) {
        return Err(ContractError::Unauthorized);
    }
    if save_max_swap_amount(storage, &token, max_amount) {
        let attributes = vec![
            Attribute {
                key: String::from_str("method"),
                value: String::from_str("set_max_swap_amount"),
            },
            Attribute { key: String::from_str("token"), value: token },
            Attribute {
                key: String::from_str("max_amount"),
                value: crate::text::u128_string(max_amount),
            },
        ];
        Ok(Response { attributes })
    } else {
        Err(ContractError::Internal)
    }
}

/// The swap cap of a token; a token never configured has cap `0`.
pub fn get_max_swap_amount(storage: &BridgeStore, token: &String) -> (r: u128)
    ensures
        r == max_swap_amount_spec(model(*storage), token@),
{
    match load_max_swap_amount(storage, token) {
        Some(value) => value,
        None => 0,
    }
}

/// The swap-amount check of the policy store: whether `amount` is positive
/// and no greater than the persisted cap of `token`. Against an
/// unconfigured token every positive amount is rejected.
pub fn is_swap_amount_valid(storage: &BridgeStore, token: &String, amount: u128) -> (r: bool)
    ensures
        r == swap_amount_allowed(max_swap_amount_spec(model(*storage), token@), amount),
{
    let cap = get_max_swap_amount(storage, token);
    0 < amount && amount <= cap
}

/// Writes a ledger record under `transaction_id`, unconditionally
/// overwriting any record already there. Authorization is the calling swap
/// flow's responsibility; this layer performs no role check and no
/// existence check.
pub fn set_swap_data(
    storage: &mut BridgeStore,
    transaction_id: String,
    swapdata: Swapdata,
) -> (r: Result<(), ContractError>)
    ensures
        r is Ok ==> model(*final(storage)) == with_swap(
            model(*old(storage)),
            transaction_id@,
            swapdata@,
        ),
        r is Err ==> model(*final(storage)) == model(*old(storage)) && r == Err::<
            (),
            ContractError,
        >(ContractError::Internal),
{
    if save_swap(storage, &transaction_id, &swapdata) {
        Ok(())
    } else {
        Err(ContractError::Internal)
    }
}

/// The ledger record under `transaction_id`, or the sentinel record when
/// the id was never written; never an error.
pub fn get_swap_data(storage: &BridgeStore, transaction_id: String) -> (r: Swapdata)
    ensures
        r@ == swap_data_spec(model(*storage), transaction_id@),
{
    match load_swap(storage, &transaction_id) {
        Some(value) => value,
        None => Swapdata::empty_default(),
    }
}

/// Sets the approval flag of `transaction_id` to `status`. Only an
/// operator may do so.
pub fn set_approve_transaction(
    storage: &mut BridgeStore,
    info: &MessageInfo,
    transaction_id: String,
    status: bool,
) -> (r: Result<Response, ContractError>)
    requires
        seeded(model(*old(storage))),
    ensures
        seeded(model(*final(storage))),
        r == Err::<Response, ContractError>(ContractError::Unauthorized) <==> !authorized(
            model(*old(storage)),
            Role::Operator,
            info.sender@,
        ),
        r is Err ==> model(*final(storage)) == model(*old(storage)),
        r is Ok ==> model(*final(storage)) == with_approval(
            model(*old(storage)),
            transaction_id@,
            status,
        ),
        r matches Ok(resp) ==> resp.attributes@.len() == 3 && resp.attributes@[0].key@
            == "method"@ && resp.attributes@[0].value@ == "set_approve_transaction"@
            && resp.attributes@[1].key@ == "transaction_id"@ && resp.attributes@[1].value@
            == transaction_id@ && resp.attributes@[2].key@ == "status"@
            && resp.attributes@[2].value@ == bool_text(status),
{
    if !has_role(storage, Role::Operator, &info.sender) {
        return Err(ContractError::Unauthorized);
    }
    if save_approval(storage, &transaction_id, status) {
        let attributes = vec![
            Attribute {
                key: String::from_str("method"),
                value: String::from_str("set_approve_transaction"),
            },
            Attribute { key: String::from_str("transaction_id"), value: transaction_id },
            Attribute { key: String::from_str("status"), value: bool_string(status) },
        ];
        Ok(Response { attributes })
    } else {
        Err(ContractError::Internal)
    }
}

/// Approval status of a transaction id, defaulting to `false`.
pub fn is_approve_transaction(storage: &BridgeStore, transaction_id: &String) -> (r: bool)
    ensures
        r == is_approved_spec(model(*storage), transaction_id@),
{
    match load_approval(storage, transaction_id) {
        Some(value) => value,
        None => false,
    }
}

/// Overwrites the single active signer key. Only an admin may do so; there
/// is no history and no multi-key support.
pub fn set_signer(storage: &mut BridgeStore, info: &MessageInfo, public_key: Vec<u8>) -> (r: Result<
    Response,
    ContractError,
>)
    requires
        seeded(model(*old(storage))),
    ensures
        seeded(model(*final(storage))),
        r == Err::<Response, ContractError>(ContractError::Unauthorized) <==> !authorized(
            model(*old(storage)),
            Role::Admin,
            info.sender@,
        ),
        r is Err ==> model(*final(storage)) == model(*old(storage)),
        r is Ok ==> model(*final(storage)) == with_signer(model(*old(storage)), public_key@),
        r matches Ok(resp) ==> resp.attributes@.len() == 2 && resp.attributes@[0].key@
            == "method"@ && resp.attributes@[0].value@ == "set_signer"@
            && resp.attributes@[1].key@ == "public_key"@ && resp.attributes@[1].value@
            == crate::text::base64_of(public_key@),
{
    if !has_role(storage, Role::Admin, &info.sender) {
        return Err(ContractError::Unauthorized);
    }
    let rendered = crate::text::base64_string(&public_key);
    if save_signer(storage, &public_key) {
        let attributes = vec![
            Attribute { key: String::from_str("method"), value: String::from_str("set_signer") },
            Attribute { key: String::from_str("public_key"), value: rendered },
        ];
        Ok(Response { attributes })
    } else {
        Err(ContractError::Internal)
    }
}

/// The active signer key, or the empty byte string when none was ever set;
/// never an error.
pub fn get_signer(storage: &BridgeStore) -> (r: Vec<u8>)
    ensures
        r@ == signer_spec(model(*storage)),
{
    match load_signer(storage) {
        Some(value) => value,
        None => Vec::new(),
    }
}

} // verus!
