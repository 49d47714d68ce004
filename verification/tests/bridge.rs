use monsterra_bridge::error::ContractError;
use monsterra_bridge::msg::{MessageInfo, SwapMessage};
use monsterra_bridge::state::{
    get_max_swap_amount, get_owner, get_signer, get_swap_data, instantiate, is_accepted_des_token,
    is_accepted_token, is_admin, is_approve_transaction, is_operator, is_swap_amount_valid,
    set_accepted_des_token, set_accepted_token, set_admin, set_approve_transaction,
    set_max_swap_amount, set_new_owner, set_operator, set_signer, set_swap_data, Swapdata,
};
use monsterra_bridge::store::BridgeStore;

fn info(sender: &str) -> MessageInfo {
    MessageInfo { sender: sender.to_string() }
}

fn seeded_store() -> BridgeStore {
    instantiate("owner1".to_string()).unwrap()
}

fn sample_swap(amount: u128) -> Swapdata {
    Swapdata {
        cur_token: "USDC".to_string(),
        des_token: "MSTR".to_string(),
        cur_user: "alice".to_string(),
        des_user: "bob".to_string(),
        amount,
        side: "deposit".to_string(),
    }
}

#[test]
fn instantiate_seeds_owner() {
    let store = seeded_store();
    assert_eq!(get_owner(&store), "owner1");
    assert!(!is_admin(&store, "owner1".to_string()));
    assert!(!is_operator(&store, "owner1".to_string()));
}

#[test]
fn set_admin_by_non_owner_fails_and_changes_nothing() {
    let mut store = seeded_store();
    let r = set_admin(&mut store, &info("mallory"), "mallory".to_string(), true);
    assert_eq!(r, Err(ContractError::Unauthorized));
    assert!(!is_admin(&store, "mallory".to_string()));
}

#[test]
fn set_admin_by_non_owner_leaves_existing_admins() {
    let mut store = seeded_store();
    set_admin(&mut store, &info("owner1"), "alice".to_string(), true).unwrap();
    let r = set_admin(&mut store, &info("mallory"), "alice".to_string(), false);
    assert_eq!(r, Err(ContractError::Unauthorized));
    assert!(is_admin(&store, "alice".to_string()));
}

#[test]
fn admin_is_not_implicit_from_ownership() {
    let mut store = seeded_store();
    let r = set_operator(&mut store, &info("owner1"), "op".to_string(), true);
    assert_eq!(r, Err(ContractError::Unauthorized));
}

#[test]
fn operator_granted_by_admin_is_visible() {
    let mut store = seeded_store();
    set_admin(&mut store, &info("owner1"), "alice".to_string(), true).unwrap();
    set_operator(&mut store, &info("alice"), "pat".to_string(), true).unwrap();
    assert!(is_operator(&store, "pat".to_string()));
    set_operator(&mut store, &info("alice"), "pat".to_string(), false).unwrap();
    assert!(!is_operator(&store, "pat".to_string()));
}

#[test]
fn unconfigured_token_is_not_accepted() {
    let mut store = seeded_store();
    assert!(!is_accepted_token(&store, &"USDC".to_string()));
    assert!(!is_accepted_des_token(&store, &"USDC".to_string()));
    set_admin(&mut store, &info("owner1"), "alice".to_string(), true).unwrap();
    let r = set_accepted_token(&mut store, &info("alice"), "USDC".to_string(), true);
    assert!(r.is_ok());
    assert!(is_accepted_token(&store, &"USDC".to_string()));
    // The two acceptance flags are independent.
    assert!(!is_accepted_des_token(&store, &"USDC".to_string()));
    let r = set_accepted_des_token(&mut store, &info("alice"), "MSTR".to_string(), true);
    assert!(r.is_ok());
    assert!(is_accepted_des_token(&store, &"MSTR".to_string()));
    assert!(!is_accepted_token(&store, &"MSTR".to_string()));
}

#[test]
fn absent_swap_returns_sentinel() {
    let store = seeded_store();
    let rec = get_swap_data(&store, "never-written".to_string());
    assert_eq!(rec.cur_token, "");
    assert_eq!(rec.des_token, "");
    assert_eq!(rec.cur_user, "");
    assert_eq!(rec.des_user, "");
    assert_eq!(rec.amount, 0u128);
    assert_eq!(rec.side, "NaN");
}

#[test]
fn swap_last_write_wins() {
    let mut store = seeded_store();
    set_swap_data(&mut store, "tx1".to_string(), sample_swap(100)).unwrap();
    set_swap_data(&mut store, "tx1".to_string(), sample_swap(250)).unwrap();
    let rec = get_swap_data(&store, "tx1".to_string());
    assert_eq!(rec.amount, 250u128);
    assert_eq!(rec.cur_token, "USDC");
    assert_eq!(rec.des_token, "MSTR");
    assert_eq!(rec.cur_user, "alice");
    assert_eq!(rec.des_user, "bob");
    assert_eq!(rec.side, "deposit");
}

#[test]
fn zero_cap_rejects_every_positive_amount() {
    let mut store = seeded_store();
    assert_eq!(get_max_swap_amount(&store, &"USDC".to_string()), 0u128);
    assert!(!is_swap_amount_valid(&store, &"USDC".to_string(), 1));
    assert!(!is_swap_amount_valid(&store, &"USDC".to_string(), u128::MAX));
    set_admin(&mut store, &info("owner1"), "alice".to_string(), true).unwrap();
    set_max_swap_amount(&mut store, &info("alice"), "USDC".to_string(), 1000).unwrap();
    assert_eq!(get_max_swap_amount(&store, &"USDC".to_string()), 1000u128);
    assert!(is_swap_amount_valid(&store, &"USDC".to_string(), 500));
    assert!(is_swap_amount_valid(&store, &"USDC".to_string(), 1000));
    assert!(!is_swap_amount_valid(&store, &"USDC".to_string(), 1001));
    assert!(!is_swap_amount_valid(&store, &"USDC".to_string(), 0));
}

#[test]
fn approval_requires_operator_and_is_idempotent() {
    let mut store = seeded_store();
    let r = set_approve_transaction(&mut store, &info("alice"), "tx1".to_string(), true);
    assert_eq!(r, Err(ContractError::Unauthorized));
    assert!(!is_approve_transaction(&store, &"tx1".to_string()));
    set_admin(&mut store, &info("owner1"), "alice".to_string(), true).unwrap();
    set_operator(&mut store, &info("alice"), "pat".to_string(), true).unwrap();
    set_approve_transaction(&mut store, &info("pat"), "tx1".to_string(), true).unwrap();
    assert!(is_approve_transaction(&store, &"tx1".to_string()));
    set_approve_transaction(&mut store, &info("pat"), "tx1".to_string(), true).unwrap();
    assert!(is_approve_transaction(&store, &"tx1".to_string()));
}

#[test]
fn transfer_ownership_moves_authority() {
    let mut store = seeded_store();
    let r = set_new_owner(&mut store, &info("mallory"), "mallory".to_string());
    assert_eq!(r, Err(ContractError::Unauthorized));
    let r = set_new_owner(&mut store, &info("owner1"), "owner2".to_string()).unwrap();
    assert_eq!(r.attributes.len(), 1);
    assert_eq!(r.attributes[0].key, "method");
    assert_eq!(r.attributes[0].value, "transfer_ownership");
    assert_eq!(get_owner(&store), "owner2");
    let r = set_admin(&mut store, &info("owner1"), "alice".to_string(), true);
    assert_eq!(r, Err(ContractError::Unauthorized));
    assert!(set_admin(&mut store, &info("owner2"), "alice".to_string(), true).is_ok());
}

#[test]
fn signer_defaults_to_empty_and_is_overwritten() {
    let mut store = seeded_store();
    assert_eq!(get_signer(&store), Vec::<u8>::new());
    set_admin(&mut store, &info("owner1"), "alice".to_string(), true).unwrap();
    let r = set_signer(&mut store, &info("mallory"), vec![1, 2, 3]);
    assert_eq!(r, Err(ContractError::Unauthorized));
    assert_eq!(get_signer(&store), Vec::<u8>::new());
    set_signer(&mut store, &info("alice"), vec![1, 2, 3]).unwrap();
    assert_eq!(get_signer(&store), vec![1, 2, 3]);
    set_signer(&mut store, &info("alice"), vec![9]).unwrap();
    assert_eq!(get_signer(&store), vec![9]);
}

#[test]
fn audit_record_of_set_admin() {
    let mut store = seeded_store();
    let r = set_admin(&mut store, &info("owner1"), "alice".to_string(), true).unwrap();
    let pairs: Vec<(&str, &str)> =
        r.attributes.iter().map(|a| (a.key.as_str(), a.value.as_str())).collect();
    assert_eq!(pairs, vec![("method", "set_admin"), ("user", "alice"), ("status", "true")]);
}

#[test]
fn audit_record_of_token_policy_writes() {
    let mut store = seeded_store();
    set_admin(&mut store, &info("owner1"), "alice".to_string(), true).unwrap();
    let r = set_accepted_token(&mut store, &info("alice"), "USDC".to_string(), false).unwrap();
    let pairs: Vec<(&str, &str)> =
        r.attributes.iter().map(|a| (a.key.as_str(), a.value.as_str())).collect();
    assert_eq!(
        pairs,
        vec![("method", "set_accepted_token"), ("accpeted_token", "USDC"), ("status", "false")]
    );
    let r = set_accepted_des_token(&mut store, &info("alice"), "MSTR".to_string(), true).unwrap();
    let pairs: Vec<(&str, &str)> =
        r.attributes.iter().map(|a| (a.key.as_str(), a.value.as_str())).collect();
    assert_eq!(
        pairs,
        vec![("method", "set_des_accepted_token"), ("des_accpeted_token", "MSTR"), ("status", "true")]
    );
    let r = set_max_swap_amount(&mut store, &info("alice"), "USDC".to_string(), 12345).unwrap();
    let pairs: Vec<(&str, &str)> =
        r.attributes.iter().map(|a| (a.key.as_str(), a.value.as_str())).collect();
    assert_eq!(
        pairs,
        vec![("method", "set_max_swap_amount"), ("token", "USDC"), ("max_amount", "12345")]
    );
}

#[test]
fn audit_record_of_set_signer_carries_base64_key() {
    let mut store = seeded_store();
    set_admin(&mut store, &info("owner1"), "alice".to_string(), true).unwrap();
    let r = set_signer(&mut store, &info("alice"), vec![1, 2, 3]).unwrap();
    let pairs: Vec<(&str, &str)> =
        r.attributes.iter().map(|a| (a.key.as_str(), a.value.as_str())).collect();
    assert_eq!(pairs, vec![("method", "set_signer"), ("public_key", "AQID")]);
}

#[test]
fn audit_record_of_operator_and_approval_writes() {
    let mut store = seeded_store();
    set_admin(&mut store, &info("owner1"), "alice".to_string(), true).unwrap();
    let r = set_operator(&mut store, &info("alice"), "pat".to_string(), true).unwrap();
    let pairs: Vec<(&str, &str)> =
        r.attributes.iter().map(|a| (a.key.as_str(), a.value.as_str())).collect();
    assert_eq!(pairs, vec![("method", "set_operator"), ("operator", "pat"), ("status", "true")]);
    let r = set_approve_transaction(&mut store, &info("pat"), "tx9".to_string(), true).unwrap();
    let pairs: Vec<(&str, &str)> =
        r.attributes.iter().map(|a| (a.key.as_str(), a.value.as_str())).collect();
    assert_eq!(
        pairs,
        vec![("method", "set_approve_transaction"), ("transaction_id", "tx9"), ("status", "true")]
    );
}

#[test]
fn swapdata_from_message_and_sentinel_shape() {
    let msg = SwapMessage {
        cur_token: "USDC".to_string(),
        des_token: "MSTR".to_string(),
        cur_user: "alice".to_string(),
        des_user: "bob".to_string(),
        amount: 77,
    };
    let rec = Swapdata::default(&msg, "withdraw".to_string());
    assert_eq!(rec.cur_token, "USDC");
    assert_eq!(rec.des_token, "MSTR");
    assert_eq!(rec.cur_user, "alice");
    assert_eq!(rec.des_user, "bob");
    assert_eq!(rec.amount, 77u128);
    assert_eq!(rec.side, "withdraw");
    let empty = Swapdata::empty_default();
    assert_eq!(empty.cur_token, "");
    assert_eq!(empty.amount, 0u128);
    assert_eq!(empty.side, "NaN");
}

#[test]
fn end_to_end_swap_flow() {
    let mut store = instantiate("owner-o".to_string()).unwrap();
    set_admin(&mut store, &info("owner-o"), "admin-a".to_string(), true).unwrap();
    set_accepted_token(&mut store, &info("admin-a"), "USDC".to_string(), true).unwrap();
    set_max_swap_amount(&mut store, &info("admin-a"), "USDC".to_string(), 1000).unwrap();
    assert!(is_accepted_token(&store, &"USDC".to_string()));
    assert!(is_swap_amount_valid(&store, &"USDC".to_string(), 500));
    let msg = SwapMessage {
        cur_token: "USDC".to_string(),
        des_token: "USDC".to_string(),
        cur_user: "alice".to_string(),
        des_user: "bob".to_string(),
        amount: 500,
    };
    let rec = Swapdata::default(&msg, "deposit".to_string());
    set_swap_data(&mut store, "tx1".to_string(), rec).unwrap();
    set_operator(&mut store, &info("admin-a"), "op-p".to_string(), true).unwrap();
    set_approve_transaction(&mut store, &info("op-p"), "tx1".to_string(), true).unwrap();
    assert_eq!(get_swap_data(&store, "tx1".to_string()).amount, 500u128);
    assert!(is_approve_transaction(&store, &"tx1".to_string()));
}

#[test]
fn authorization_matrix_is_strict() {
    let mut store = seeded_store();
    set_admin(&mut store, &info("owner1"), "alice".to_string(), true).unwrap();
    set_operator(&mut store, &info("alice"), "pat".to_string(), true).unwrap();
    // An admin may not assign admins or transfer ownership.
    assert_eq!(
        set_admin(&mut store, &info("alice"), "eve".to_string(), true),
        Err(ContractError::Unauthorized)
    );
    assert_eq!(
        set_new_owner(&mut store, &info("alice"), "alice".to_string()),
        Err(ContractError::Unauthorized)
    );
    // An operator may not touch policy, roles or the signer.
    assert_eq!(
        set_accepted_token(&mut store, &info("pat"), "USDC".to_string(), true),
        Err(ContractError::Unauthorized)
    );
    assert_eq!(
        set_max_swap_amount(&mut store, &info("pat"), "USDC".to_string(), 5),
        Err(ContractError::Unauthorized)
    );
    assert_eq!(
        set_operator(&mut store, &info("pat"), "eve".to_string(), true),
        Err(ContractError::Unauthorized)
    );
    assert_eq!(
        set_signer(&mut store, &info("pat"), vec![1]),
        Err(ContractError::Unauthorized)
    );
    // The owner may not approve transactions or grant operators directly.
    assert_eq!(
        set_approve_transaction(&mut store, &info("owner1"), "tx".to_string(), true),
        Err(ContractError::Unauthorized)
    );
}
