//! End-to-end scenarios for the registry core: mint gating, custody
//! transfers, approvals, operator delegation, and admin operations.

use nft::env::{Coin, Env, MessageInfo};
use nft::error::ContractError;
use nft::expiration::{BlockInfo, Expiration};
use nft::msg::{ExecuteMsg, InstantiateMsg, MintMsg};
use nft::response::OutMsg;
use nft::state::Cw721Contract;

fn coin(denom: &str, amount: u128) -> Coin {
    Coin { denom: denom.to_string(), amount }
}

fn info(sender: &str, funds: Vec<Coin>) -> MessageInfo {
    MessageInfo { sender: sender.to_string(), funds }
}

fn env_with(balance: Vec<Coin>) -> Env {
    Env { block: BlockInfo { height: 100, time: 1_000_000 }, contract_balance: balance }
}

fn mint_msg(token_id: &str) -> MintMsg<u64> {
    MintMsg {
        token_id: token_id.to_string(),
        owner: String::new(),
        token_uri: Some(format!("uri/{}", token_id)),
        extension: 7,
    }
}

/// A contract with presale off, fee 10, cap `max_tokens`, admin "admin".
fn setup(max_tokens: u64) -> Cw721Contract<u64> {
    let mut c = Cw721Contract::instantiate(
        "admin".to_string(),
        InstantiateMsg {
            name: "Spacebots".to_string(),
            symbol: "SBT".to_string(),
            max_tokens,
            white_list: vec!["alice".to_string()],
            minting_fee: 10,
        },
    );
    let r = c.set_presale_status(&env_with(vec![]), &info("admin", vec![]), false);
    assert!(r.is_ok());
    c
}

fn owner_of(c: &Cw721Contract<u64>, token_id: &str) -> String {
    for e in c.tokens.iter() {
        if e.token_id == token_id {
            return e.info.owner.clone();
        }
    }
    panic!("token not found");
}

fn approvals_of(c: &Cw721Contract<u64>, token_id: &str) -> Vec<(String, Expiration)> {
    for e in c.tokens.iter() {
        if e.token_id == token_id {
            return e.info.approvals.iter().map(|a| (a.spender.clone(), a.expires)).collect();
        }
    }
    panic!("token not found");
}

#[test]
fn instantiate_sets_singletons() {
    let c: Cw721Contract<u64> = Cw721Contract::instantiate(
        "creator".to_string(),
        InstantiateMsg {
            name: "Spacebots".to_string(),
            symbol: "SBT".to_string(),
            max_tokens: 5,
            white_list: vec!["alice".to_string(), "bob".to_string()],
            minting_fee: 42,
        },
    );
    assert_eq!(c.contract_info.name, "Spacebots");
    assert_eq!(c.contract_info.symbol, "SBT");
    assert_eq!(c.max_tokens, 5);
    assert_eq!(c.token_count, 0);
    assert_eq!(c.admin, "creator");
    assert!(c.is_presale);
    assert_eq!(c.minting_fee, 42);
    assert_eq!(c.white_list.addresses, vec!["alice".to_string(), "bob".to_string()]);
    assert!(c.tokens.is_empty());
    assert!(c.operators.is_empty());
}

#[test]
fn second_mint_of_same_id_fails_claimed() {
    let mut c = setup(10);
    let env = env_with(vec![coin("uluna", 10)]);
    let r1 = c.mint(&env, &info("alice", vec![coin("uluna", 10)]), mint_msg("a"));
    assert!(r1.is_ok());
    let count_after_first = c.token_count;
    let r2 = c.mint(&env, &info("bob", vec![coin("uluna", 10)]), mint_msg("a"));
    assert_eq!(r2.unwrap_err(), ContractError::Claimed);
    assert_eq!(c.token_count, count_after_first);
    assert_eq!(owner_of(&c, "a"), "alice");
}

#[test]
fn mint_at_cap_fails_max_tokens_reached() {
    let mut c = setup(1);
    let env = env_with(vec![]);
    assert!(c.mint(&env, &info("alice", vec![coin("uluna", 10)]), mint_msg("a")).is_ok());
    // the cap gate fires whatever the payment looks like
    let r = c.mint(&env, &info("bob", vec![coin("uluna", 999)]), mint_msg("b"));
    assert_eq!(r.unwrap_err(), ContractError::MaxTokensReached);
    let r = c.mint(&env, &info("bob", vec![]), mint_msg("c"));
    assert_eq!(r.unwrap_err(), ContractError::MaxTokensReached);
}

#[test]
fn presale_gates_minting_on_allow_list() {
    let mut c = setup(10);
    assert!(c.set_presale_status(&env_with(vec![]), &info("admin", vec![]), true).is_ok());
    let env = env_with(vec![]);
    let r = c.mint(&env, &info("bob", vec![coin("uluna", 10)]), mint_msg("a"));
    assert_eq!(r.unwrap_err(), ContractError::Unauthorized);
    // allow-listing the same actor lets the same request through
    let addresses = vec!["alice".to_string(), "bob".to_string()];
    assert!(c.execute_update_white_list(&env, &info("admin", vec![]), addresses).is_ok());
    let r = c.mint(&env, &info("bob", vec![coin("uluna", 10)]), mint_msg("a"));
    assert!(r.is_ok());
    assert_eq!(owner_of(&c, "a"), "bob");
}

#[test]
fn mint_payment_gate() {
    let mut c = setup(10);
    let env = env_with(vec![]);
    let r = c.mint(&env, &info("alice", vec![]), mint_msg("a"));
    assert_eq!(r.unwrap_err(), ContractError::InsufficientPayment);
    let r = c.mint(&env, &info("alice", vec![coin("uluna", 9)]), mint_msg("a"));
    assert_eq!(r.unwrap_err(), ContractError::InsufficientPayment);
    assert_eq!(c.token_count, 0);
    let r = c.mint(&env, &info("alice", vec![coin("uluna", 10)]), mint_msg("a"));
    assert!(r.is_ok());
    assert_eq!(c.token_count, 1);
}

#[test]
fn mint_response_reports_balance() {
    let mut c = setup(10);
    let env = env_with(vec![coin("uluna", 150)]);
    let r = c.mint(&env, &info("alice", vec![coin("uluna", 10)]), mint_msg("a")).unwrap();
    assert_eq!(r.attributes.len(), 4);
    assert_eq!(r.attributes[0].key, "action");
    assert_eq!(r.attributes[0].value, "mint");
    assert_eq!(r.attributes[1].key, "minter");
    assert_eq!(r.attributes[1].value, "alice");
    assert_eq!(r.attributes[2].key, "token_id");
    assert_eq!(r.attributes[2].value, "a");
    assert_eq!(r.attributes[3].key, "contract_balance");
    assert_eq!(r.attributes[3].value, "150");
    assert!(r.messages.is_empty());
}

#[test]
fn mint_response_balance_empty_when_no_holdings() {
    let mut c = setup(10);
    let r = c.mint(&env_with(vec![]), &info("alice", vec![coin("uluna", 10)]), mint_msg("a")).unwrap();
    assert_eq!(r.attributes[3].value, "");
}

#[test]
fn transfer_clears_approvals() {
    let mut c = setup(10);
    let env = env_with(vec![]);
    assert!(c.mint(&env, &info("alice", vec![coin("uluna", 10)]), mint_msg("a")).is_ok());
    let r = c.approve(&env, &info("alice", vec![]), "bob".to_string(), "a".to_string(), None);
    assert!(r.is_ok());
    assert_eq!(approvals_of(&c, "a").len(), 1);
    let r = c.transfer_nft(&env, &info("alice", vec![]), "carol".to_string(), "a".to_string());
    assert!(r.is_ok());
    assert_eq!(owner_of(&c, "a"), "carol");
    assert!(approvals_of(&c, "a").is_empty());
}

#[test]
fn transfer_of_missing_token_fails_not_found() {
    let mut c = setup(10);
    let env = env_with(vec![]);
    let r = c.transfer_nft(&env, &info("alice", vec![]), "bob".to_string(), "nope".to_string());
    assert_eq!(r.unwrap_err(), ContractError::NotFound);
}

#[test]
fn past_expiration_is_rejected_and_nothing_stored() {
    let mut c = setup(10);
    let env = env_with(vec![]);
    assert!(c.mint(&env, &info("alice", vec![coin("uluna", 10)]), mint_msg("a")).is_ok());
    // current height is 100: a bound at height 100 has already passed
    let r = c.approve(
        &env,
        &info("alice", vec![]),
        "bob".to_string(),
        "a".to_string(),
        Some(Expiration::AtHeight(100)),
    );
    assert_eq!(r.unwrap_err(), ContractError::Expired);
    assert!(approvals_of(&c, "a").is_empty());
    // same for a time bound in the past
    let r = c.approve(
        &env,
        &info("alice", vec![]),
        "bob".to_string(),
        "a".to_string(),
        Some(Expiration::AtTime(999_999)),
    );
    assert_eq!(r.unwrap_err(), ContractError::Expired);
    assert!(approvals_of(&c, "a").is_empty());
}

#[test]
fn expired_operator_grant_fails() {
    let mut c = setup(10);
    let env = env_with(vec![]);
    let r = c.approve_all(&env, &info("alice", vec![]), "bob".to_string(), Some(Expiration::AtHeight(50)));
    assert_eq!(r.unwrap_err(), ContractError::Expired);
    assert!(c.operators.is_empty());
}

#[test]
fn owner_may_approve_and_transfer() {
    let mut c = setup(10);
    let env = env_with(vec![]);
    assert!(c.mint(&env, &info("alice", vec![coin("uluna", 10)]), mint_msg("a")).is_ok());
    assert!(c.approve(&env, &info("alice", vec![]), "bob".to_string(), "a".to_string(), None).is_ok());
    assert!(c.revoke(&env, &info("alice", vec![]), "bob".to_string(), "a".to_string()).is_ok());
    assert!(c.transfer_nft(&env, &info("alice", vec![]), "bob".to_string(), "a".to_string()).is_ok());
}

#[test]
fn stranger_is_denied_everything() {
    let mut c = setup(10);
    let env = env_with(vec![]);
    assert!(c.mint(&env, &info("alice", vec![coin("uluna", 10)]), mint_msg("a")).is_ok());
    let mallory = info("mallory", vec![]);
    let r = c.approve(&env, &mallory, "eve".to_string(), "a".to_string(), None);
    assert_eq!(r.unwrap_err(), ContractError::Unauthorized);
    let r = c.revoke(&env, &mallory, "eve".to_string(), "a".to_string());
    assert_eq!(r.unwrap_err(), ContractError::Unauthorized);
    let r = c.transfer_nft(&env, &mallory, "mallory".to_string(), "a".to_string());
    assert_eq!(r.unwrap_err(), ContractError::Unauthorized);
    let r = c.send_nft(&env, &mallory, "market".to_string(), "a".to_string(), vec![1, 2]);
    assert_eq!(r.unwrap_err(), ContractError::Unauthorized);
    assert_eq!(owner_of(&c, "a"), "alice");
}

#[test]
fn approved_spender_may_send_but_not_approve() {
    let mut c = setup(10);
    let env = env_with(vec![]);
    assert!(c.mint(&env, &info("alice", vec![coin("uluna", 10)]), mint_msg("a")).is_ok());
    assert!(c.approve(&env, &info("alice", vec![]), "bob".to_string(), "a".to_string(), None).is_ok());
    // a per-token approval holder may not grant approvals
    let r = c.approve(&env, &info("bob", vec![]), "eve".to_string(), "a".to_string(), None);
    assert_eq!(r.unwrap_err(), ContractError::Unauthorized);
    // but may transfer
    let r = c.transfer_nft(&env, &info("bob", vec![]), "bob".to_string(), "a".to_string());
    assert!(r.is_ok());
    assert_eq!(owner_of(&c, "a"), "bob");
}

#[test]
fn operator_grant_then_revoke_gates_transfer() {
    let mut c = setup(10);
    let env = env_with(vec![]);
    assert!(c.mint(&env, &info("alice", vec![coin("uluna", 10)]), mint_msg("a")).is_ok());
    assert!(c.approve_all(&env, &info("alice", vec![]), "bob".to_string(), None).is_ok());
    // bob, as operator, transfers alice's token
    let r = c.transfer_nft(&env, &info("bob", vec![]), "carol".to_string(), "a".to_string());
    assert!(r.is_ok());
    assert_eq!(owner_of(&c, "a"), "carol");
    // carol grants the same delegation, then revokes it
    assert!(c.approve_all(&env, &info("carol", vec![]), "bob".to_string(), None).is_ok());
    assert!(c.revoke_all(&env, &info("carol", vec![]), "bob".to_string()).is_ok());
    let r = c.transfer_nft(&env, &info("bob", vec![]), "bob".to_string(), "a".to_string());
    assert_eq!(r.unwrap_err(), ContractError::Unauthorized);
    assert_eq!(owner_of(&c, "a"), "carol");
}

#[test]
fn revoking_absent_delegation_is_not_an_error() {
    let mut c = setup(10);
    let env = env_with(vec![]);
    let r = c.revoke_all(&env, &info("alice", vec![]), "bob".to_string());
    assert!(r.is_ok());
    assert!(c.operators.is_empty());
}

#[test]
fn expired_operator_delegation_denies() {
    let mut c = setup(10);
    let env = env_with(vec![]);
    assert!(c.mint(&env, &info("alice", vec![coin("uluna", 10)]), mint_msg("a")).is_ok());
    // grant expiring at height 200, then move past it
    assert!(c.approve_all(&env, &info("alice", vec![]), "bob".to_string(), Some(Expiration::AtHeight(200))).is_ok());
    let later = Env { block: BlockInfo { height: 200, time: 2_000_000 }, contract_balance: vec![] };
    let r = c.transfer_nft(&later, &info("bob", vec![]), "bob".to_string(), "a".to_string());
    assert_eq!(r.unwrap_err(), ContractError::Unauthorized);
}

#[test]
fn withdraw_balance_pays_admin_in_first_denomination() {
    let mut c = setup(10);
    let env = env_with(vec![coin("uluna", 100)]);
    // over the first-denomination balance
    let r = c.withdraw_balance(&env, &info("admin", vec![]), 150);
    assert_eq!(r.unwrap_err(), ContractError::InsufficientBalance);
    // the exact balance goes through
    let r = c.withdraw_balance(&env, &info("admin", vec![]), 100).unwrap();
    assert_eq!(r.messages.len(), 1);
    match &r.messages[0] {
        OutMsg::BankSend { to_address, amount } => {
            assert_eq!(to_address, "admin");
            assert_eq!(amount.len(), 1);
            assert_eq!(amount[0].denom, "uluna");
            assert_eq!(amount[0].amount, 100);
        },
        _ => panic!("expected a payment instruction"),
    }
    // a non-admin actor may not withdraw anything
    let r = c.withdraw_balance(&env, &info("alice", vec![]), 1);
    assert_eq!(r.unwrap_err(), ContractError::Unauthorized);
}

#[test]
fn withdraw_with_empty_holdings_fails() {
    let mut c = setup(10);
    let r = c.withdraw_balance(&env_with(vec![]), &info("admin", vec![]), 0);
    assert_eq!(r.unwrap_err(), ContractError::InsufficientBalance);
}

#[test]
fn approving_twice_keeps_one_entry_with_latest_expiration() {
    let mut c = setup(10);
    let env = env_with(vec![]);
    assert!(c.mint(&env, &info("alice", vec![coin("uluna", 10)]), mint_msg("a")).is_ok());
    assert!(c.approve(&env, &info("alice", vec![]), "bob".to_string(), "a".to_string(), Some(Expiration::AtHeight(500))).is_ok());
    assert!(c.approve(&env, &info("alice", vec![]), "bob".to_string(), "a".to_string(), Some(Expiration::AtTime(9_999_999))).is_ok());
    let aps = approvals_of(&c, "a");
    assert_eq!(aps.len(), 1);
    assert_eq!(aps[0].0, "bob");
    assert_eq!(aps[0].1, Expiration::AtTime(9_999_999));
}

#[test]
fn regranting_operator_replaces_expiration() {
    let mut c = setup(10);
    let env = env_with(vec![]);
    assert!(c.approve_all(&env, &info("alice", vec![]), "bob".to_string(), Some(Expiration::AtHeight(500))).is_ok());
    assert!(c.approve_all(&env, &info("alice", vec![]), "bob".to_string(), None).is_ok());
    assert_eq!(c.operators.len(), 1);
    assert_eq!(c.operators[0].owner, "alice");
    assert_eq!(c.operators[0].operator, "bob");
    assert_eq!(c.operators[0].expires, Expiration::Never);
}

#[test]
fn send_nft_attaches_delivery_instruction() {
    let mut c = setup(10);
    let env = env_with(vec![]);
    assert!(c.mint(&env, &info("alice", vec![coin("uluna", 10)]), mint_msg("a")).is_ok());
    let r = c.send_nft(&env, &info("alice", vec![]), "market".to_string(), "a".to_string(), vec![9, 8, 7]).unwrap();
    assert_eq!(owner_of(&c, "a"), "market");
    assert!(approvals_of(&c, "a").is_empty());
    assert_eq!(r.messages.len(), 1);
    match &r.messages[0] {
        OutMsg::Cw721Receive { contract, sender, token_id, msg } => {
            assert_eq!(contract, "market");
            assert_eq!(sender, "alice");
            assert_eq!(token_id, "a");
            assert_eq!(msg, &vec![9, 8, 7]);
        },
        _ => panic!("expected a delivery instruction"),
    }
}

#[test]
fn admin_gates_white_list_and_presale() {
    let mut c = setup(10);
    let env = env_with(vec![]);
    let r = c.execute_update_white_list(&env, &info("alice", vec![]), vec!["eve".to_string()]);
    assert_eq!(r.unwrap_err(), ContractError::Unauthorized);
    let r = c.set_presale_status(&env, &info("alice", vec![]), true);
    assert_eq!(r.unwrap_err(), ContractError::Unauthorized);
    assert!(!c.is_presale);
    let r = c.set_presale_status(&env, &info("admin", vec![]), true).unwrap();
    assert!(c.is_presale);
    assert_eq!(r.attributes[1].key, "presale_status");
    assert_eq!(r.attributes[1].value, "true");
}

#[test]
fn operator_may_approve_on_behalf_of_owner() {
    let mut c = setup(10);
    let env = env_with(vec![]);
    assert!(c.mint(&env, &info("alice", vec![coin("uluna", 10)]), mint_msg("a")).is_ok());
    assert!(c.approve_all(&env, &info("alice", vec![]), "bob".to_string(), None).is_ok());
    // bob, as alice's operator, grants eve an approval on alice's token
    let r = c.approve(&env, &info("bob", vec![]), "eve".to_string(), "a".to_string(), None);
    assert!(r.is_ok());
    let aps = approvals_of(&c, "a");
    assert_eq!(aps.len(), 1);
    assert_eq!(aps[0].0, "eve");
    // and eve may now transfer it
    assert!(c.transfer_nft(&env, &info("eve", vec![]), "eve".to_string(), "a".to_string()).is_ok());
    assert_eq!(owner_of(&c, "a"), "eve");
}

#[test]
fn expired_per_token_approval_denies_send() {
    let mut c = setup(10);
    let env = env_with(vec![]);
    assert!(c.mint(&env, &info("alice", vec![coin("uluna", 10)]), mint_msg("a")).is_ok());
    assert!(c.approve(&env, &info("alice", vec![]), "bob".to_string(), "a".to_string(), Some(Expiration::AtHeight(150))).is_ok());
    // beyond height 150 the approval is inert: it denies rather than grants
    let later = Env { block: BlockInfo { height: 150, time: 1_000_000 }, contract_balance: vec![] };
    let r = c.transfer_nft(&later, &info("bob", vec![]), "bob".to_string(), "a".to_string());
    assert_eq!(r.unwrap_err(), ContractError::Unauthorized);
    // before the bound it still grants
    let r = c.transfer_nft(&env, &info("bob", vec![]), "bob".to_string(), "a".to_string());
    assert!(r.is_ok());
}

#[test]
fn execute_routes_requests() {
    let mut c = setup(10);
    let env = env_with(vec![]);
    let r = c.execute(&env, &info("alice", vec![coin("uluna", 10)]), ExecuteMsg::Mint(mint_msg("a")));
    assert!(r.is_ok());
    let r = c.execute(
        &env,
        &info("alice", vec![]),
        ExecuteMsg::TransferNft { recipient: "bob".to_string(), token_id: "a".to_string() },
    );
    assert!(r.is_ok());
    assert_eq!(owner_of(&c, "a"), "bob");
    let r = c.execute(&env, &info("eve", vec![]), ExecuteMsg::WithdrawBalance(5));
    assert_eq!(r.unwrap_err(), ContractError::Unauthorized);
}
