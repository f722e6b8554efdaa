//! Laws relating several operations, proved from the contracts in
//! [`crate::execute`]: mint gating and uniqueness, authorization of owners,
//! strangers and operators, and approval replacement.

use vstd::prelude::*;
use crate::env::{Env, MessageInfo};
use crate::error::ContractError;
use crate::expiration::{spec_resolve_expiration, BlockInfo, Expiration};
use crate::msg::MintMsg;
use crate::state::{lemma_approvals_except_props, Cw721Contract, TokenInfo};

verus! {

/// Law: a token id, once minted, cannot be minted again. A second mint of
/// the same id fails `Claimed` — and by `mint_post` commits nothing —
/// whenever the second request clears the two gates checked earlier: its
/// actor passes the presale gate and the cap has not been hit.
pub proof fn lemma_second_mint_fails_claimed<T>(
    pre: Cw721Contract<T>,
    mid: Cw721Contract<T>,
    info1: MessageInfo,
    msg1: MintMsg<T>,
    info2: MessageInfo,
    msg2: MintMsg<T>,
)
    requires
        Cw721Contract::mint_error(pre, info1, msg1) is None,
        Cw721Contract::mint_success(pre, mid, info1, msg1),
        msg2.token_id@ == msg1.token_id@,
        !(mid.is_presale && !mid.white_list.spec_contains(info2.sender@)),
        mid.token_count != mid.max_tokens,
    ensures
        Cw721Contract::mint_error(mid, info2, msg2) == Some(ContractError::Claimed),
{
    assert(mid.tokens@[mid.tokens@.len() - 1].token_id@ == msg2.token_id@);
    assert(mid.has_token(msg2.token_id@));
}

/// Law: when the count has reached the cap, a mint fails
/// `MaxTokensReached` whatever payment is attached and whatever id is
/// asked for, provided the actor clears the presale gate, which is
/// checked first.
pub proof fn lemma_mint_at_cap<T>(s: Cw721Contract<T>, info: MessageInfo, msg: MintMsg<T>)
    requires
        s.token_count == s.max_tokens,
        !(s.is_presale && !s.white_list.spec_contains(info.sender@)),
    ensures
        Cw721Contract::mint_error(s, info, msg) == Some(ContractError::MaxTokensReached),
{
}

/// Law: during presale, an actor outside the allow-list cannot mint,
/// whatever payment is attached.
pub proof fn lemma_presale_denies_unlisted<T>(s: Cw721Contract<T>, info: MessageInfo, msg: MintMsg<T>)
    requires
        s.is_presale,
        !s.white_list.spec_contains(info.sender@),
    ensures
        Cw721Contract::mint_error(s, info, msg) == Some(ContractError::Unauthorized),
{
}

/// Law: an allow-listed actor's mint goes through, given an unclaimed id,
/// a cap not yet hit, and a sufficient first payment.
pub proof fn lemma_allow_listed_can_mint<T>(s: Cw721Contract<T>, info: MessageInfo, msg: MintMsg<T>)
    requires
        s.white_list.spec_contains(info.sender@),
        s.token_count != s.max_tokens,
        !s.has_token(msg.token_id@),
        info.funds@.len() > 0,
        info.funds@[0].amount >= s.minting_fee,
    ensures
        Cw721Contract::mint_error(s, info, msg) is None,
{
}

/// Law: payment gating of a mint whose earlier gates are clear. No
/// attached funds, or a first payment below the fee, fails
/// `InsufficientPayment`; a first payment meeting the fee mints.
pub proof fn lemma_mint_payment_gate<T>(s: Cw721Contract<T>, info: MessageInfo, msg: MintMsg<T>)
    requires
        !(s.is_presale && !s.white_list.spec_contains(info.sender@)),
        s.token_count != s.max_tokens,
        !s.has_token(msg.token_id@),
    ensures
        info.funds@.len() == 0 ==> Cw721Contract::mint_error(s, info, msg) == Some(
            ContractError::InsufficientPayment,
        ),
        info.funds@.len() > 0 && info.funds@[0].amount < s.minting_fee
            ==> Cw721Contract::mint_error(s, info, msg) == Some(ContractError::InsufficientPayment),
        info.funds@.len() > 0 && info.funds@[0].amount >= s.minting_fee
            ==> Cw721Contract::mint_error(s, info, msg) is None,
{
}

/// Law: an admin's allow-list replacement makes every address on the new
/// list pass the presale gate — in particular an actor the previous list
/// had denied.
pub proof fn lemma_update_white_list_adds_member<T>(
    pre: Cw721Contract<T>,
    post: Cw721Contract<T>,
    admin_info: MessageInfo,
    addresses: Vec<String>,
    r: Result<crate::response::Response, ContractError>,
    i: int,
)
    requires
        pre.admin@ == admin_info.sender@,
        Cw721Contract::update_white_list_post(pre, post, admin_info, addresses, r),
        0 <= i < addresses@.len(),
    ensures
        post.white_list.spec_contains(addresses@[i]@),
{
    assert(post.white_list.addresses@[i]@ == addresses@[i]@);
}

/// Law: the owner of a token is always authorized, both to mutate its
/// approvals and to transfer it.
pub proof fn lemma_owner_always_authorized<T>(s: Cw721Contract<T>, token: TokenInfo<T>, block: BlockInfo)
    ensures
        s.spec_can_approve(token, token.owner@, block),
        s.spec_can_send(token, token.owner@, block),
{
}

/// Law: an actor that is not the owner, appears in none of the token's
/// approval entries, and holds no delegation entry from the owner, is
/// denied with `Unauthorized` on every custody operation: transfer and
/// send (`transfer_error`), approve and revoke
/// (`update_approvals_error`, for either value of `add`).
pub proof fn lemma_stranger_denied<T>(
    s: Cw721Contract<T>,
    env: Env,
    info: MessageInfo,
    token_id: Seq<char>,
    add: bool,
    expires: Option<Expiration>,
)
    requires
        s.has_token(token_id),
        s.token_of(token_id).owner@ != info.sender@,
        forall|i: int|
            0 <= i < s.token_of(token_id).approvals@.len() ==> (#[trigger] s.token_of(
                token_id,
            ).approvals@[i]).spender@ != info.sender@,
        !s.has_operator(s.token_of(token_id).owner@, info.sender@),
    ensures
        Cw721Contract::transfer_error(s, env, info, token_id) == Some(ContractError::Unauthorized),
        Cw721Contract::update_approvals_error(s, env, info, token_id, add, expires) == Some(
            ContractError::Unauthorized,
        ),
{
}

/// Law: after an owner grants a never-expiring delegation to an operator,
/// the operator may transfer any token of that owner.
pub proof fn lemma_operator_grant_enables_transfer<T>(
    pre: Cw721Contract<T>,
    post: Cw721Contract<T>,
    env: Env,
    owner_info: MessageInfo,
    operator: String,
    op_info: MessageInfo,
    token_id: Seq<char>,
    expires: Option<Expiration>,
)
    requires
        pre.wf(),
        post.wf(),
        spec_resolve_expiration(expires) == Expiration::Never,
        Cw721Contract::approve_all_success(pre, post, owner_info, operator, expires),
        op_info.sender@ == operator@,
        post.has_token(token_id),
        post.token_of(token_id).owner@ == owner_info.sender@,
    ensures
        Cw721Contract::transfer_error(post, env, op_info, token_id) is None,
{
    let a = owner_info.sender@;
    let b = operator@;
    if pre.has_operator(a, b) {
        let i = pre.operator_idx(a, b);
        assert(pre.operators@[i].owner@ == a && pre.operators@[i].operator@ == b);
        assert(post.operators@[i].owner@ == a && post.operators@[i].operator@ == b);
        assert(post.operators@[i].expires == Expiration::Never);
        post.lemma_operator_idx_unique(a, b, i);
    } else {
        let i = post.operators@.len() - 1;
        assert(post.operators@[i].owner@ == a && post.operators@[i].operator@ == b);
        assert(post.operators@[i].expires == Expiration::Never);
        post.lemma_operator_idx_unique(a, b, i);
    }
    assert(post.operator_allows(a, b, env.block));
}

/// Law: after the owner revokes the delegation, an operator that is not
/// the owner and appears in none of the token's approval entries is
/// denied the same transfer with `Unauthorized`.
pub proof fn lemma_operator_revoked_denies_transfer<T>(
    pre: Cw721Contract<T>,
    post: Cw721Contract<T>,
    env: Env,
    owner_info: MessageInfo,
    operator: String,
    op_info: MessageInfo,
    token_id: Seq<char>,
)
    requires
        pre.wf(),
        post.wf(),
        Cw721Contract::revoke_all_success(pre, post, owner_info, operator),
        op_info.sender@ == operator@,
        op_info.sender@ != owner_info.sender@,
        post.has_token(token_id),
        post.token_of(token_id).owner@ == owner_info.sender@,
        forall|i: int|
            0 <= i < post.token_of(token_id).approvals@.len() ==> (#[trigger] post.token_of(
                token_id,
            ).approvals@[i]).spender@ != op_info.sender@,
    ensures
        Cw721Contract::transfer_error(post, env, op_info, token_id) == Some(ContractError::Unauthorized),
{
    let a = owner_info.sender@;
    let b = operator@;
    if pre.has_operator(a, b) {
        let idx = pre.operator_idx(a, b);
        assert(0 <= idx < pre.operators@.len() && pre.operators@[idx].owner@ == a
            && pre.operators@[idx].operator@ == b);
        assert(post.operators@ == pre.operators@.remove(idx));
        if post.has_operator(a, b) {
            let j = choose|j: int|
                0 <= j < post.operators@.len() && post.operators@[j].owner@ == a
                    && post.operators@[j].operator@ == b;
            let j0: int = if j < idx {
                j
            } else {
                j + 1
            };
            assert(post.operators@[j] == pre.operators@[j0]);
            assert(pre.operators@[j0].owner@ == a && pre.operators@[j0].operator@ == b);
            pre.lemma_operator_idx_unique(a, b, j0);
            assert(false);
        }
    }
    assert(!post.has_operator(a, b));
}

/// Law: a successful mint deletes nothing — every id present before is
/// present after, and so is the newly minted one.
pub proof fn lemma_mint_keeps_tokens<T>(
    pre: Cw721Contract<T>,
    post: Cw721Contract<T>,
    info: MessageInfo,
    msg: MintMsg<T>,
    id: Seq<char>,
)
    requires
        Cw721Contract::mint_success(pre, post, info, msg),
        pre.has_token(id) || id == msg.token_id@,
    ensures
        post.has_token(id),
{
    if pre.has_token(id) {
        let i = choose|i: int| 0 <= i < pre.tokens@.len() && pre.tokens@[i].token_id@ == id;
        assert(post.tokens@[i].token_id@ == id);
    } else {
        assert(post.tokens@[post.tokens@.len() - 1].token_id@ == id);
    }
}

/// Law: a token record, once created, is never deleted — a successful
/// transfer, send, approve or revoke changes custody or delegation but
/// keeps every token id in the registry.
pub proof fn lemma_custody_ops_keep_tokens<T>(
    pre: Cw721Contract<T>,
    post: Cw721Contract<T>,
    recipient: String,
    spender: String,
    token_id: Seq<char>,
    add: bool,
    expires: Option<Expiration>,
    id: Seq<char>,
)
    requires
        Cw721Contract::transfer_success(pre, post, recipient, token_id) || Cw721Contract::update_approvals_success(
            pre,
            post,
            spender,
            token_id,
            add,
            expires,
        ),
        pre.has_token(id),
    ensures
        post.has_token(id),
{
    let i = choose|i: int| 0 <= i < pre.tokens@.len() && pre.tokens@[i].token_id@ == id;
    assert(post.tokens@[i].token_id@ == id);
}

/// Law: granting an approval leaves exactly one entry for that spender —
/// the latest, with the resolved expiration — however many approvals the
/// spender held before.
pub proof fn lemma_approve_leaves_single_entry<T>(
    pre: Cw721Contract<T>,
    post: Cw721Contract<T>,
    spender: String,
    token_id: Seq<char>,
    expires: Option<Expiration>,
)
    requires
        pre.wf(),
        pre.has_token(token_id),
        Cw721Contract::update_approvals_success(pre, post, spender, token_id, true, expires),
    ensures
        ({
            let aps = post.tokens@[pre.token_idx(token_id)].info.approvals@;
            &&& aps.len() > 0
            &&& aps.last().spender@ == spender@
            &&& aps.last().expires == spec_resolve_expiration(expires)
            &&& forall|i: int| 0 <= i < aps.len() - 1 ==> (#[trigger] aps[i]).spender@ != spender@
        }),
{
    lemma_approvals_except_props(pre.tokens@[pre.token_idx(token_id)].info.approvals@, spender@);
}

} // verus!
