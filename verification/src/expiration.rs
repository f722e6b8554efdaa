//! Expiration bounds for approvals and operator delegations, evaluated
//! against the current block context.

use vstd::prelude::*;

verus! {

/// The point in chain history at which a request is being processed.
#[derive(Clone, Copy, PartialEq, Eq, Structural, Debug)]
pub struct BlockInfo {
    /// Current chain height.
    pub height: u64,
    /// Current chain time, in nanoseconds.
    pub time: u64,
}

/// When an approval or operator delegation lapses: never, at a chain
/// height, or at a chain time (nanoseconds).
#[derive(Clone, Copy, PartialEq, Eq, Structural, Debug)]
pub enum Expiration {
    AtHeight(u64),
    AtTime(u64),
    Never,
}

impl Expiration {
    /// Whether this bound has passed in the given block context.
    pub open spec fn spec_is_expired(self, block: BlockInfo) -> bool {
        match self {
            Expiration::AtHeight(h) => block.height >= h,
            Expiration::AtTime(t) => block.time >= t,
            Expiration::Never => false,
        }
    }

    /// An expiration past its bound is inert: it denies rather than grants.
    pub fn is_expired(&self, block: &BlockInfo) -> (r: bool)
        ensures
            r == self.spec_is_expired(*block),
    {
        match self {
            Expiration::AtHeight(h) => block.height >= *h,
            Expiration::AtTime(t) => block.time >= *t,
            Expiration::Never => false,
        }
    }
}

/// A request may omit the expiration; an absent bound defaults to `Never`.
pub open spec fn spec_resolve_expiration(e: Option<Expiration>) -> Expiration {
    match e {
        Some(x) => x,
        None => Expiration::Never,
    }
}

/// Resolves an optional expiration to its default.
pub fn resolve_expiration(e: Option<Expiration>) -> (r: Expiration)
    ensures
        r == spec_resolve_expiration(e),
{
    match e {
        Some(x) => x,
        None => Expiration::Never,
    }
}

} // verus!
