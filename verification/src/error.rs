//! Every failure path returns a distinct, identifiable error kind; an error
//! is terminal for its request and commits no state change.

use vstd::prelude::*;

verus! {

/// The error taxonomy of the registry core.
#[derive(Clone, Copy, PartialEq, Eq, Structural, Debug)]
pub enum ContractError {
    /// The actor lacks the required relationship to the owner or admin.
    Unauthorized,
    /// The supply cap has been hit.
    MaxTokensReached,
    /// The token id has already been minted.
    Claimed,
    /// Attached funds are absent or below the minting fee.
    InsufficientPayment,
    /// A withdrawal exceeds the holdings, or the holdings are empty.
    InsufficientBalance,
    /// A supplied expiration is already in the past.
    Expired,
    /// The referenced token id does not exist.
    NotFound,
    /// An externally supplied address failed host validation.
    InvalidAddress,
}

} // verus!
