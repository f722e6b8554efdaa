//! The chain context a request arrives with: the authenticated caller and
//! its attached funds, the current block, and the contract account's
//! holdings as reported by the host's balance query.

use vstd::prelude::*;
use crate::expiration::BlockInfo;

verus! {

/// One native-currency amount, in a named denomination.
#[derive(Debug)]
pub struct Coin {
    pub denom: String,
    pub amount: u128,
}

/// The authenticated caller of a request and the funds it attached.
/// The sender address has already been authenticated by the host.
#[derive(Debug)]
pub struct MessageInfo {
    pub sender: String,
    pub funds: Vec<Coin>,
}

/// A snapshot of the chain context: the current block, and the contract
/// account's own holdings. The host guarantees the holdings already
/// reflect funds attached to the request being processed.
#[derive(Debug)]
pub struct Env {
    pub block: BlockInfo,
    pub contract_balance: Vec<Coin>,
}

} // verus!
