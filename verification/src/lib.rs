//! Authorization and state-transition core of a non-fungible-token registry.
//!
//! The library issues unique tokens to owners, tracks per-token approvals and
//! owner-wide operator delegations, enforces a gated minting policy
//! (allow-list, supply cap, paid fee), and arbitrates custody transfers.
//! Every operation is a verified state transition on [`state::Cw721Contract`];
//! the host environment (persistent storage, address validation, balance
//! queries, message dispatch) supplies plain values at the boundary.

pub mod error;
pub mod expiration;
pub mod env;
pub mod msg;
pub mod response;
pub mod state;
pub mod execute;
pub mod laws;
