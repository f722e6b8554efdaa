//! The registry state: contract configuration singletons, the token table,
//! and the operator-delegation table, together with the well-formedness
//! invariant every operation preserves and the authorization predicates.
//!
//! Addresses and token ids are strings; every externally supplied address
//! has been validated by the host before it reaches this library.

use vstd::prelude::*;
use crate::expiration::{BlockInfo, Expiration};

verus! {

/// Contract metadata persisted once at initialization.
#[derive(Debug)]
pub struct ContractInfo {
    pub name: String,
    pub symbol: String,
}

/// Permission for one spender to transfer one token, until `expires`.
#[derive(Debug)]
pub struct Approval {
    pub spender: String,
    pub expires: Expiration,
}

impl Clone for Approval {
    /// A clone equals the original.
    fn clone(&self) -> (r: Self)
        ensures
            r == *self,
    {
        Approval { spender: self.spender.clone(), expires: self.expires }
    }
}

impl Approval {
    /// Whether this approval is inert in the given block context.
    pub fn is_expired(&self, block: &BlockInfo) -> (r: bool)
        ensures
            r == self.expires.spec_is_expired(*block),
    {
        self.expires.is_expired(block)
    }
}

/// One token record: owner, per-token approvals, an opaque URI, and an
/// opaque application-defined extension payload the core never inspects.
#[derive(Debug)]
pub struct TokenInfo<T> {
    pub owner: String,
    pub approvals: Vec<Approval>,
    pub token_uri: Option<String>,
    pub extension: T,
}

impl<T> TokenInfo<T> {
    /// At most one approval per spender at any time.
    pub open spec fn wf(self) -> bool {
        forall|i: int, j: int|
            0 <= i < j < self.approvals@.len() ==> self.approvals@[i].spender@ != self.approvals@[j].spender@
    }
}

/// A token record keyed by its id. Ids are unique and immutable; a record,
/// once created, is never deleted.
#[derive(Debug)]
pub struct TokenEntry<T> {
    pub token_id: String,
    pub info: TokenInfo<T>,
}

/// One operator delegation: `operator` may act as `owner` for all of
/// `owner`'s tokens until `expires`. Consulted by authorization only; it
/// never changes a recorded owner.
#[derive(Debug)]
pub struct OperatorEntry {
    pub owner: String,
    pub operator: String,
    pub expires: Expiration,
}

/// The set of addresses permitted to mint while presale mode is active.
/// Membership only; order is irrelevant.
#[derive(Debug)]
pub struct WhiteList {
    pub addresses: Vec<String>,
}

impl WhiteList {
    /// Membership of an address, compared by content.
    pub open spec fn spec_contains(self, addr: Seq<char>) -> bool {
        exists|i: int| 0 <= i < self.addresses@.len() && self.addresses@[i]@ == addr
    }

    /// Whether `addr` may mint during presale.
    pub fn is_white_listed(&self, addr: &String) -> (r: bool)
        ensures
            r == self.spec_contains(addr@),
    {
        let mut i: usize = 0;
        while i < self.addresses.len()
            invariant
                i <= self.addresses@.len(),
                forall|j: int| 0 <= j < i ==> self.addresses@[j]@ != addr@,
            decreases self.addresses@.len() - i,
        {
            if self.addresses[i] == *addr {
                return true;
            }
            i += 1;
        }
        false
    }
}

/// The approvals that survive removing one spender's entry: exactly those
/// whose spender differs, in their original order.
pub open spec fn approvals_except(s: Seq<Approval>, spender: Seq<char>) -> Seq<Approval> {
    s.filter(|a: Approval| a.spender@ != spender)
}

/// One unfolding step of `approvals_except` along a prefix of `s`.
pub proof fn lemma_approvals_except_step(s: Seq<Approval>, spender: Seq<char>, k: int)
    requires
        0 <= k < s.len(),
    ensures
        approvals_except(s.subrange(0, k + 1), spender) == (if s[k].spender@ != spender {
            approvals_except(s.subrange(0, k), spender).push(s[k])
        } else {
            approvals_except(s.subrange(0, k), spender)
        }),
{
    reveal(Seq::<Approval>::filter);
    let t = s.subrange(0, k + 1);
    assert(t.drop_last() =~= s.subrange(0, k));
    assert(t.last() == s[k]);
}

/// Every surviving approval names another spender and comes from `s`.
pub proof fn lemma_approvals_except_props(s: Seq<Approval>, spender: Seq<char>)
    ensures
        forall|i: int|
            0 <= i < approvals_except(s, spender).len() ==> (#[trigger] approvals_except(s, spender)[i]).spender@
                != spender,
        forall|i: int|
            0 <= i < approvals_except(s, spender).len() ==> s.contains(
                #[trigger] approvals_except(s, spender)[i],
            ),
    decreases s.len(),
{
    reveal(Seq::<Approval>::filter);
    if s.len() == 0 {
    } else {
        let dl = s.drop_last();
        lemma_approvals_except_props(dl, spender);
        assert forall|i: int| 0 <= i < approvals_except(s, spender).len() implies s.contains(
            #[trigger] approvals_except(s, spender)[i],
        ) by {
            if i < approvals_except(dl, spender).len() {
                let j = choose|j: int| 0 <= j < dl.len() && dl[j] == approvals_except(dl, spender)[i];
                assert(s[j] == approvals_except(s, spender)[i]);
            } else {
                assert(s[s.len() - 1] == approvals_except(s, spender)[i]);
            }
        }
    }
}

/// Removing one spender's entry keeps the remaining spenders distinct.
pub proof fn lemma_approvals_except_distinct(s: Seq<Approval>, spender: Seq<char>)
    requires
        forall|i: int, j: int| 0 <= i < j < s.len() ==> s[i].spender@ != s[j].spender@,
    ensures
        forall|i: int, j: int|
            0 <= i < j < approvals_except(s, spender).len() ==> approvals_except(s, spender)[i].spender@
                != approvals_except(s, spender)[j].spender@,
    decreases s.len(),
{
    reveal(Seq::<Approval>::filter);
    if s.len() == 0 {
    } else {
        let dl = s.drop_last();
        assert(forall|i: int, j: int| 0 <= i < j < dl.len() ==> dl[i].spender@ != dl[j].spender@);
        lemma_approvals_except_distinct(dl, spender);
        lemma_approvals_except_props(dl, spender);
        let k = approvals_except(s, spender);
        let kd = approvals_except(dl, spender);
        if s.last().spender@ != spender {
            assert(k == kd.push(s.last()));
            assert forall|i: int, j: int| 0 <= i < j < k.len() implies k[i].spender@ != k[j].spender@ by {
                if j == k.len() - 1 {
                    assert(dl.contains(kd[i]));
                    let m = choose|m: int| 0 <= m < dl.len() && dl[m] == kd[i];
                    assert(dl[m].spender@ != s[s.len() - 1].spender@);
                }
            }
        } else {
            assert(k == kd);
        }
    }
}

/// The whole registry state: configuration singletons, the token table,
/// and the operator-delegation table.
#[derive(Debug)]
pub struct Cw721Contract<T> {
    pub contract_info: ContractInfo,
    /// Immutable supply cap, set at initialization.
    pub max_tokens: u64,
    /// Number of token records ever created; monotonic, starts at 0.
    pub token_count: u64,
    /// The single admin identity, set at initialization, immutable.
    pub admin: String,
    /// While true, only allow-listed addresses may mint.
    pub is_presale: bool,
    /// Minimum payment amount required per mint.
    pub minting_fee: u128,
    pub white_list: WhiteList,
    pub tokens: Vec<TokenEntry<T>>,
    pub operators: Vec<OperatorEntry>,
}

impl<T> Cw721Contract<T> {
    /// The global invariant: the count never exceeds the cap and equals the
    /// number of records ever created; token ids are unique; at most one
    /// delegation per (owner, operator) pair; each record is well formed.
    pub open spec fn wf(self) -> bool {
        &&& self.token_count <= self.max_tokens
        &&& self.token_count as int == self.tokens@.len()
        &&& forall|i: int, j: int|
            0 <= i < j < self.tokens@.len() ==> self.tokens@[i].token_id@ != self.tokens@[j].token_id@
        &&& forall|i: int| 0 <= i < self.tokens@.len() ==> (#[trigger] self.tokens@[i]).info.wf()
        &&& forall|i: int, j: int|
            0 <= i < j < self.operators@.len() ==> !(self.operators@[i].owner@
                == self.operators@[j].owner@ && self.operators@[i].operator@
                == self.operators@[j].operator@)
    }

    /// Whether a token with this id has been minted.
    pub open spec fn has_token(self, id: Seq<char>) -> bool {
        exists|i: int| 0 <= i < self.tokens@.len() && self.tokens@[i].token_id@ == id
    }

    /// The position of the token with this id; meaningful when `has_token`.
    pub open spec fn token_idx(self, id: Seq<char>) -> int {
        choose|i: int| 0 <= i < self.tokens@.len() && self.tokens@[i].token_id@ == id
    }

    /// The record of the token with this id; meaningful when `has_token`.
    pub open spec fn token_of(self, id: Seq<char>) -> TokenInfo<T> {
        self.tokens@[self.token_idx(id)].info
    }

    /// Whether a delegation entry exists for this (owner, operator) pair.
    pub open spec fn has_operator(self, owner: Seq<char>, operator: Seq<char>) -> bool {
        exists|i: int|
            0 <= i < self.operators@.len() && self.operators@[i].owner@ == owner
                && self.operators@[i].operator@ == operator
    }

    /// The position of the delegation entry; meaningful when `has_operator`.
    pub open spec fn operator_idx(self, owner: Seq<char>, operator: Seq<char>) -> int {
        choose|i: int|
            0 <= i < self.operators@.len() && self.operators@[i].owner@ == owner
                && self.operators@[i].operator@ == operator
    }

    /// The delegation's expiration; meaningful when `has_operator`.
    pub open spec fn operator_expires(self, owner: Seq<char>, operator: Seq<char>) -> Expiration {
        self.operators@[self.operator_idx(owner, operator)].expires
    }

    /// A delegation grants authority only while present and unexpired. An
    /// existing-but-expired entry denies just as a missing one does.
    pub open spec fn operator_allows(self, owner: Seq<char>, actor: Seq<char>, block: BlockInfo) -> bool {
        self.has_operator(owner, actor) && !self.operator_expires(owner, actor).spec_is_expired(block)
    }

    /// Some unexpired approval on this token names the actor as spender.
    pub open spec fn approval_allows(token: TokenInfo<T>, actor: Seq<char>, block: BlockInfo) -> bool {
        exists|i: int|
            0 <= i < token.approvals@.len() && token.approvals@[i].spender@ == actor
                && !token.approvals@[i].expires.spec_is_expired(block)
    }

    /// Whether the actor may mutate this token's approvals: the owner may,
    /// and so may an unexpired operator of the owner.
    pub open spec fn spec_can_approve(self, token: TokenInfo<T>, actor: Seq<char>, block: BlockInfo) -> bool {
        token.owner@ == actor || self.operator_allows(token.owner@, actor, block)
    }

    /// Whether the actor may transfer this token: the owner may, any
    /// unexpired per-token approval holder may, and so may an unexpired
    /// operator of the owner.
    pub open spec fn spec_can_send(self, token: TokenInfo<T>, actor: Seq<char>, block: BlockInfo) -> bool {
        ||| token.owner@ == actor
        ||| Self::approval_allows(token, actor, block)
        ||| self.operator_allows(token.owner@, actor, block)
    }

    /// Finds the position of a token record by id.
    pub fn find_token(&self, token_id: &String) -> (r: Option<usize>)
        requires
            self.wf(),
        ensures
            match r {
                Some(i) => self.has_token(token_id@) && i == self.token_idx(token_id@)
                    && 0 <= i < self.tokens@.len() && self.tokens@[i as int].token_id@ == token_id@,
                None => !self.has_token(token_id@),
            },
    {
        let mut i: usize = 0;
        while i < self.tokens.len()
            invariant
                self.wf(),
                i <= self.tokens@.len(),
                forall|j: int| 0 <= j < i ==> self.tokens@[j].token_id@ != token_id@,
            decreases self.tokens@.len() - i,
        {
            if self.tokens[i].token_id == *token_id {
                proof {
                    self.lemma_token_idx_unique(token_id@, i as int);
                }
                return Some(i);
            }
            i += 1;
        }
        None
    }

    /// In a well-formed state, any position whose record bears the id is
    /// the position `token_idx` denotes.
    pub proof fn lemma_token_idx_unique(self, id: Seq<char>, i: int)
        requires
            self.wf(),
            0 <= i < self.tokens@.len(),
            self.tokens@[i].token_id@ == id,
        ensures
            self.has_token(id),
            self.token_idx(id) == i,
    {
        assert(self.has_token(id));
        let j = self.token_idx(id);
        assert(0 <= j < self.tokens@.len() && self.tokens@[j].token_id@ == id);
        if i < j {
            assert(self.tokens@[i].token_id@ != self.tokens@[j].token_id@);
        } else if j < i {
            assert(self.tokens@[j].token_id@ != self.tokens@[i].token_id@);
        }
    }

    /// Finds the position of a delegation entry by (owner, operator) pair.
    pub fn find_operator(&self, owner: &String, operator: &String) -> (r: Option<usize>)
        requires
            self.wf(),
        ensures
            match r {
                Some(i) => self.has_operator(owner@, operator@)
                    && i == self.operator_idx(owner@, operator@) && 0 <= i < self.operators@.len()
                    && self.operators@[i as int].owner@ == owner@
                    && self.operators@[i as int].operator@ == operator@,
                None => !self.has_operator(owner@, operator@),
            },
    {
        let mut i: usize = 0;
        while i < self.operators.len()
            invariant
                self.wf(),
                i <= self.operators@.len(),
                forall|j: int|
                    0 <= j < i ==> !(self.operators@[j].owner@ == owner@ && self.operators@[j].operator@
                        == operator@),
            decreases self.operators@.len() - i,
        {
            if self.operators[i].owner == *owner && self.operators[i].operator == *operator {
                proof {
                    self.lemma_operator_idx_unique(owner@, operator@, i as int);
                }
                return Some(i);
            }
            i += 1;
        }
        None
    }

    /// In a well-formed state, any position whose entry bears the pair is
    /// the position `operator_idx` denotes.
    pub proof fn lemma_operator_idx_unique(self, owner: Seq<char>, operator: Seq<char>, i: int)
        requires
            self.wf(),
            0 <= i < self.operators@.len(),
            self.operators@[i].owner@ == owner,
            self.operators@[i].operator@ == operator,
        ensures
            self.has_operator(owner, operator),
            self.operator_idx(owner, operator) == i,
    {
        assert(self.has_operator(owner, operator));
        let j = self.operator_idx(owner, operator);
        if i < j {
            assert(!(self.operators@[i].owner@ == self.operators@[j].owner@
                && self.operators@[i].operator@ == self.operators@[j].operator@));
        } else if j < i {
            assert(!(self.operators@[j].owner@ == self.operators@[i].owner@
                && self.operators@[j].operator@ == self.operators@[i].operator@));
        }
    }

    /// The configuration singletons are untouched.
    pub open spec fn config_unchanged(self, pre: Self) -> bool {
        &&& self.contract_info == pre.contract_info
        &&& self.max_tokens == pre.max_tokens
        &&& self.admin == pre.admin
        &&& self.is_presale == pre.is_presale
        &&& self.minting_fee == pre.minting_fee
        &&& self.white_list == pre.white_list
    }
}

} // verus!
