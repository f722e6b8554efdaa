//! The request kinds the core accepts. Every address carried in a request
//! has been validated by the host before the request reaches the library.

use vstd::prelude::*;
use crate::expiration::Expiration;

verus! {

/// One-time setup: metadata, supply cap, initial allow-list, minting fee.
#[derive(Debug)]
pub struct InstantiateMsg {
    pub name: String,
    pub symbol: String,
    pub max_tokens: u64,
    pub white_list: Vec<String>,
    pub minting_fee: u128,
}

/// A mint request. The minted token is owned by the requesting actor;
/// the `owner` field is carried for interface compatibility but the
/// active policy ignores it.
#[derive(Debug)]
pub struct MintMsg<T> {
    pub token_id: String,
    pub owner: String,
    pub token_uri: Option<String>,
    pub extension: T,
}

/// The request kinds routed by [`crate::state::Cw721Contract::execute`].
#[derive(Debug)]
pub enum ExecuteMsg<T> {
    Mint(MintMsg<T>),
    Approve { spender: String, token_id: String, expires: Option<Expiration> },
    Revoke { spender: String, token_id: String },
    ApproveAll { operator: String, expires: Option<Expiration> },
    RevokeAll { operator: String },
    TransferNft { recipient: String, token_id: String },
    SendNft { contract: String, token_id: String, msg: Vec<u8> },
    UpdateWhiteList { addresses: Vec<String> },
    SetPresaleStatus(bool),
    WithdrawBalance(u128),
}

} // verus!
