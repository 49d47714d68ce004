//! The persistence boundary of the bridge core. The hosting environment's
//! byte-addressable key-value store is carried in a `BridgeStore`; each
//! register of the core (owner, admin set, operator set, token policy, swap
//! ledger, approval gate, signer key) lives under its own namespace of that
//! store and is reached through `cw_storage_plus` items and maps. What each
//! namespace holds is named by an uninterpreted spec function, and every
//! access goes through a trusted wrapper whose contract relates the call to
//! those names. The store field is private and only these wrappers write
//! it, so every namespace holds exactly what its own save serialized and
//! every load parses back what was saved.

use vstd::prelude::*;

use crate::model::{initial_model, BridgeModel, SwapdataView};
use crate::state::Swapdata;

verus! {

#[verifier::external_type_specification]
#[verifier::external_body]
pub struct ExMockStorage(cosmwasm_std::testing::MockStorage);

/// The persistent key-value store of the bridge core, as handed to it by
/// the hosting environment.
pub struct BridgeStore {
    store: cosmwasm_std::testing::MockStorage,
}

/// The address under the owner key, if one was ever persisted.
pub uninterp spec fn owner_of(s: BridgeStore) -> Option<Seq<char>>;

/// The contents of the admin namespace: admin flag per address.
pub uninterp spec fn admins_of(s: BridgeStore) -> Map<Seq<char>, bool>;

/// The contents of the operator namespace: operator flag per address.
pub uninterp spec fn operators_of(s: BridgeStore) -> Map<Seq<char>, bool>;

/// The contents of the accepted-token namespace: source acceptance per token.
pub uninterp spec fn accepted_source_of(s: BridgeStore) -> Map<Seq<char>, bool>;

/// The contents of the destination-accepted-token namespace.
pub uninterp spec fn accepted_destination_of(s: BridgeStore) -> Map<Seq<char>, bool>;

/// The contents of the swap-cap namespace: cap per token.
pub uninterp spec fn max_swap_amounts_of(s: BridgeStore) -> Map<Seq<char>, u128>;

/// The contents of the swap-ledger namespace: record per transaction id.
pub uninterp spec fn swaps_of(s: BridgeStore) -> Map<Seq<char>, SwapdataView>;

/// The contents of the approval namespace: approval flag per transaction id.
pub uninterp spec fn approvals_of(s: BridgeStore) -> Map<Seq<char>, bool>;

/// The byte string under the signer key, if one was ever persisted.
pub uninterp spec fn signer_of(s: BridgeStore) -> Option<Seq<u8>>;

/// The mathematical state that a store persists: the nine registers read
/// off their namespaces.
pub open spec fn model(s: BridgeStore) -> BridgeModel {
    BridgeModel {
        owner: owner_of(s),
        admins: admins_of(s),
        operators: operators_of(s),
        accepted_source: accepted_source_of(s),
        accepted_destination: accepted_destination_of(s),
        max_swap_amounts: max_swap_amounts_of(s),
        swaps: swaps_of(s),
        approvals: approvals_of(s),
        signer: signer_of(s),
    }
}

/// Relies on cosmwasm_std::testing::MockStorage::new: a fresh store holds no
/// entry under any key, so every register starts empty.
#[verifier::external_body]
pub(crate) fn new_store() -> (r: BridgeStore)
    ensures
        model(r) == initial_model(),
{
    BridgeStore { store: cosmwasm_std::testing::MockStorage::new() }
}

/// Relies on cw_storage_plus::Item::save: on success the serialized address
/// stands under the owner key and no other key changes; on failure nothing
/// was written.
#[verifier::external_body]
pub(crate) fn save_owner(s: &mut BridgeStore, user: &String) -> (ok: bool)
    ensures
        ok ==> model(*final(s)) == (BridgeModel { owner: Some(user@), ..model(*old(s)) }),
        !ok ==> model(*final(s)) == model(*old(s)),
{
    let item: cw_storage_plus::Item<cosmwasm_std::Addr> = cw_storage_plus::Item::new("owner");
    item.save(&mut s.store, &cosmwasm_std::Addr::unchecked(user.as_str())).is_ok()
}

/// Relies on cw_storage_plus::Item::load: returns exactly the address that
/// the owner key holds, or nothing when the key was never written.
#[verifier::external_body]
pub(crate) fn load_owner(s: &BridgeStore) -> (r: Option<String>)
    ensures
        match r {
            Some(user) => owner_of(*s) == Some(user@),
            None => owner_of(*s) is None,
        },
{
    let item: cw_storage_plus::Item<cosmwasm_std::Addr> = cw_storage_plus::Item::new("owner");
    match item.load(&s.store) {
        Ok(addr) => Some(addr.into_string()),
        Err(_) => None,
    }
}

/// Relies on cw_storage_plus::Map::save under the admin namespace: on
/// success the flag stands under the given address and no other key
/// changes; on failure nothing was written.
#[verifier::external_body]
pub(crate) fn save_admin(s: &mut BridgeStore, user: &String, status: bool) -> (ok: bool)
    ensures
        ok ==> model(*final(s)) == (BridgeModel {
            admins: model(*old(s)).admins.insert(user@, status),
            ..model(*old(s))
        }),
        !ok ==> model(*final(s)) == model(*old(s)),
{
    let map: cw_storage_plus::Map<cosmwasm_std::Addr, bool> = cw_storage_plus::Map::new("admin");
    map.save(&mut s.store, cosmwasm_std::Addr::unchecked(user.as_str()), &status).is_ok()
}

/// Relies on cw_storage_plus::Map::may_load under the admin namespace:
/// returns the stored flag, or nothing when the address was never written.
#[verifier::external_body]
pub(crate) fn load_admin(s: &BridgeStore, user: &String) -> (r: Option<bool>)
    ensures
        r == if admins_of(*s).contains_key(user@) {
            Some(admins_of(*s)[user@])
        } else {
            None::<bool>
        },
{
    let map: cw_storage_plus::Map<cosmwasm_std::Addr, bool> = cw_storage_plus::Map::new("admin");
    map.may_load(&s.store, cosmwasm_std::Addr::unchecked(user.as_str())).unwrap_or(None)
}

/// Relies on cw_storage_plus::Map::save under the operator namespace, as
/// for the admin namespace.
#[verifier::external_body]
pub(crate) fn save_operator(s: &mut BridgeStore, user: &String, status: bool) -> (ok: bool)
    ensures
        ok ==> model(*final(s)) == (BridgeModel {
            operators: model(*old(s)).operators.insert(user@, status),
            ..model(*old(s))
        }),
        !ok ==> model(*final(s)) == model(*old(s)),
{
    let map: cw_storage_plus::Map<cosmwasm_std::Addr, bool> = cw_storage_plus::Map::new("operators");
    map.save(&mut s.store, cosmwasm_std::Addr::unchecked(user.as_str()), &status).is_ok()
}

/// Relies on cw_storage_plus::Map::may_load under the operator namespace.
#[verifier::external_body]
pub(crate) fn load_operator(s: &BridgeStore, user: &String) -> (r: Option<bool>)
    ensures
        r == if operators_of(*s).contains_key(user@) {
            Some(operators_of(*s)[user@])
        } else {
            None::<bool>
        },
{
    let map: cw_storage_plus::Map<cosmwasm_std::Addr, bool> = cw_storage_plus::Map::new("operators");
    map.may_load(&s.store, cosmwasm_std::Addr::unchecked(user.as_str())).unwrap_or(None)
}

/// Relies on cw_storage_plus::Map::save under the accepted-token namespace.
#[verifier::external_body]
pub(crate) fn save_accepted_token(s: &mut BridgeStore, token: &String, status: bool) -> (ok: bool)
    ensures
        ok ==> model(*final(s)) == (BridgeModel {
            accepted_source: model(*old(s)).accepted_source.insert(token@, status),
            ..model(*old(s))
        }),
        !ok ==> model(*final(s)) == model(*old(s)),
{
    let map: cw_storage_plus::Map<String, bool> = cw_storage_plus::Map::new("acceptedToken");
    map.save(&mut s.store, token.clone(), &status).is_ok()
}

/// Relies on cw_storage_plus::Map::may_load under the accepted-token
/// namespace.
#[verifier::external_body]
pub(crate) fn load_accepted_token(s: &BridgeStore, token: &String) -> (r: Option<bool>)
    ensures
        r == if accepted_source_of(*s).contains_key(token@) {
            Some(accepted_source_of(*s)[token@])
        } else {
            None::<bool>
        },
{
    let map: cw_storage_plus::Map<String, bool> = cw_storage_plus::Map::new("acceptedToken");
    map.may_load(&s.store, token.clone()).unwrap_or(None)
}

/// Relies on cw_storage_plus::Map::save under the destination-accepted-token
/// namespace.
#[verifier::external_body]
pub(crate) fn save_accepted_des_token(s: &mut BridgeStore, token: &String, status: bool) -> (ok: bool)
    ensures
        ok ==> model(*final(s)) == (BridgeModel {
            accepted_destination: model(*old(s)).accepted_destination.insert(token@, status),
            ..model(*old(s))
        }),
        !ok ==> model(*final(s)) == model(*old(s)),
{
    let map: cw_storage_plus::Map<String, bool> = cw_storage_plus::Map::new("desAcceptedToken");
    map.save(&mut s.store, token.clone(), &status).is_ok()
}

/// Relies on cw_storage_plus::Map::may_load under the
/// destination-accepted-token namespace.
#[verifier::external_body]
pub(crate) fn load_accepted_des_token(s: &BridgeStore, token: &String) -> (r: Option<bool>)
    ensures
        r == if accepted_destination_of(*s).contains_key(token@) {
            Some(accepted_destination_of(*s)[token@])
        } else {
            None::<bool>
        },
{
    let map: cw_storage_plus::Map<String, bool> = cw_storage_plus::Map::new("desAcceptedToken");
    map.may_load(&s.store, token.clone()).unwrap_or(None)
}

/// Relies on cw_storage_plus::Map::save under the swap-cap namespace; the
/// amount is stored as an unsigned 128-bit integer.
#[verifier::external_body]
pub(crate) fn save_max_swap_amount(s: &mut BridgeStore, token: &String, amount: u128) -> (ok: bool)
    ensures
        ok ==> model(*final(s)) == (BridgeModel {
            max_swap_amounts: model(*old(s)).max_swap_amounts.insert(token@, amount),
            ..model(*old(s))
        }),
        !ok ==> model(*final(s)) == model(*old(s)),
{
    let map: cw_storage_plus::Map<String, cosmwasm_std::Uint128> =
        cw_storage_plus::Map::new("maxSwapAmounts");
    map.save(&mut s.store, token.clone(), &cosmwasm_std::Uint128::new(amount)).is_ok()
}

/// Relies on cw_storage_plus::Map::may_load under the swap-cap namespace.
#[verifier::external_body]
pub(crate) fn load_max_swap_amount(s: &BridgeStore, token: &String) -> (r: Option<u128>)
    ensures
        r == if max_swap_amounts_of(*s).contains_key(token@) {
            Some(max_swap_amounts_of(*s)[token@])
        } else {
            None::<u128>
        },
{
    let map: cw_storage_plus::Map<String, cosmwasm_std::Uint128> =
        cw_storage_plus::Map::new("maxSwapAmounts");
    match map.may_load(&s.store, token.clone()) {
        Ok(Some(v)) => Some(v.u128()),
        _ => None,
    }
}

/// Relies on cw_storage_plus::Map::save under the swap-ledger namespace: on
/// success the record stands under the transaction id, overwriting any
/// earlier record there, and no other key changes.
#[verifier::external_body]
pub(crate) fn save_swap(s: &mut BridgeStore, transaction_id: &String, data: &Swapdata) -> (ok: bool)
    ensures
        ok ==> model(*final(s)) == (BridgeModel {
            swaps: model(*old(s)).swaps.insert(transaction_id@, data@),
            ..model(*old(s))
        }),
        !ok ==> model(*final(s)) == model(*old(s)),
{
    let map: cw_storage_plus::Map<
        String,
        (String, String, String, String, cosmwasm_std::Uint128, String),
    > = cw_storage_plus::Map::new("swapdata");
    let rec = (
        data.cur_token.clone(),
        data.des_token.clone(),
        data.cur_user.clone(),
        data.des_user.clone(),
        cosmwasm_std::Uint128::new(data.amount),
        data.side.clone(),
    );
    map.save(&mut s.store, transaction_id.clone(), &rec).is_ok()
}

/// Relies on cw_storage_plus::Map::may_load under the swap-ledger namespace:
/// returns the stored record, or nothing when the id was never written.
#[verifier::external_body]
pub(crate) fn load_swap(s: &BridgeStore, transaction_id: &String) -> (r: Option<Swapdata>)
    ensures
        match r {
            Some(data) => swaps_of(*s).contains_key(transaction_id@)
                && swaps_of(*s)[transaction_id@] == data@,
            None => !swaps_of(*s).contains_key(transaction_id@),
        },
{
    let map: cw_storage_plus::Map<
        String,
        (String, String, String, String, cosmwasm_std::Uint128, String),
    > = cw_storage_plus::Map::new("swapdata");
    match map.may_load(&s.store, transaction_id.clone()) {
        Ok(Some((cur_token, des_token, cur_user, des_user, amount, side))) => {
            Some(Swapdata { cur_token, des_token, cur_user, des_user, amount: amount.u128(), side })
        }
        _ => None,
    }
}

/// Relies on cw_storage_plus::Map::save under the approval namespace.
#[verifier::external_body]
pub(crate) fn save_approval(s: &mut BridgeStore, transaction_id: &String, status: bool) -> (ok: bool)
    ensures
        ok ==> model(*final(s)) == (BridgeModel {
            approvals: model(*old(s)).approvals.insert(transaction_id@, status),
            ..model(*old(s))
        }),
        !ok ==> model(*final(s)) == model(*old(s)),
{
    let map: cw_storage_plus::Map<String, bool> = cw_storage_plus::Map::new("approvedTransactions");
    map.save(&mut s.store, transaction_id.clone(), &status).is_ok()
}

/// Relies on cw_storage_plus::Map::may_load under the approval namespace.
#[verifier::external_body]
pub(crate) fn load_approval(s: &BridgeStore, transaction_id: &String) -> (r: Option<bool>)
    ensures
        r == if approvals_of(*s).contains_key(transaction_id@) {
            Some(approvals_of(*s)[transaction_id@])
        } else {
            None::<bool>
        },
{
    let map: cw_storage_plus::Map<String, bool> = cw_storage_plus::Map::new("approvedTransactions");
    map.may_load(&s.store, transaction_id.clone()).unwrap_or(None)
}

/// Relies on cw_storage_plus::Item::save: on success the serialized key
/// bytes stand under the signer key and no other key changes.
#[verifier::external_body]
pub(crate) fn save_signer(s: &mut BridgeStore, public_key: &Vec<u8>) -> (ok: bool)
    ensures
        ok ==> model(*final(s)) == (BridgeModel { signer: Some(public_key@), ..model(*old(s)) }),
        !ok ==> model(*final(s)) == model(*old(s)),
{
    let item: cw_storage_plus::Item<cosmwasm_std::Binary> = cw_storage_plus::Item::new("signer");
    item.save(&mut s.store, &cosmwasm_std::Binary::from(public_key.clone())).is_ok()
}

/// Relies on cw_storage_plus::Item::load: returns exactly the byte string
/// that the signer key holds, or nothing when it was never written.
#[verifier::external_body]
pub(crate) fn load_signer(s: &BridgeStore) -> (r: Option<Vec<u8>>)
    ensures
        match r {
            Some(key) => signer_of(*s) == Some(key@),
            None => signer_of(*s) is None,
        },
{
    let item: cw_storage_plus::Item<cosmwasm_std::Binary> = cw_storage_plus::Item::new("signer");
    match item.load(&s.store) {
        Ok(key) => Some(key.to_vec()),
        Err(_) => None,
    }
}

} // verus!
