//! The pipelines: initialization, minting, transfer/approval, and admin
//! operations. Each public function's contract states, for every input,
//! exactly which error it returns or exactly how the state changes.

use vstd::prelude::*;
use vstd::string::StringExecFns;
use crate::env::{Coin, Env, MessageInfo};
use crate::error::ContractError;
use crate::expiration::{spec_resolve_expiration, resolve_expiration, Expiration};
use crate::msg::{ExecuteMsg, InstantiateMsg, MintMsg};
use crate::response::{bool_to_string, decimal_of, u128_to_string, OutMsg, Response};
use crate::state::{
    approvals_except, lemma_approvals_except_distinct, lemma_approvals_except_props,
    lemma_approvals_except_step, Approval, Cw721Contract, ContractInfo, OperatorEntry, TokenEntry,
    TokenInfo, WhiteList,
};

verus! {

impl<T> Cw721Contract<T> {
    /// One-shot setup of all configuration singletons. The instantiating
    /// caller becomes the admin unconditionally; presale starts active;
    /// the token count starts at zero. The allow-list addresses have been
    /// validated by the host.
    pub fn instantiate(sender: String, msg: InstantiateMsg) -> (c: Self)
        ensures
            c.wf(),
            c.contract_info.name == msg.name,
            c.contract_info.symbol == msg.symbol,
            c.max_tokens == msg.max_tokens,
            c.token_count == 0,
            c.admin == sender,
            c.is_presale,
            c.minting_fee == msg.minting_fee,
            c.white_list.addresses == msg.white_list,
            c.tokens@ == Seq::<TokenEntry<T>>::empty(),
            c.operators@ == Seq::<OperatorEntry>::empty(),
    {
        Cw721Contract {
            contract_info: ContractInfo { name: msg.name, symbol: msg.symbol },
            max_tokens: msg.max_tokens,
            token_count: 0,
            admin: sender,
            is_presale: true,
            minting_fee: msg.minting_fee,
            white_list: WhiteList { addresses: msg.white_list },
            tokens: Vec::new(),
            operators: Vec::new(),
        }
    }

    /// Which gate a mint request fails on, if any, in gate order: presale
    /// allow-list, supply cap, id uniqueness, payment presence, payment
    /// sufficiency. Only the first attached payment entry is inspected.
    pub open spec fn mint_error(pre: Self, info: MessageInfo, msg: MintMsg<T>) -> Option<ContractError> {
        if pre.is_presale && !pre.white_list.spec_contains(info.sender@) {
            Some(ContractError::Unauthorized)
        } else if pre.token_count == pre.max_tokens {
            Some(ContractError::MaxTokensReached)
        } else if pre.has_token(msg.token_id@) {
            Some(ContractError::Claimed)
        } else if info.funds@.len() == 0 {
            Some(ContractError::InsufficientPayment)
        } else if info.funds@[0].amount < pre.minting_fee {
            Some(ContractError::InsufficientPayment)
        } else {
            None
        }
    }

    /// A successful mint appends exactly one record — owned by the actor,
    /// with no approvals, carrying the supplied URI and extension — bumps
    /// the count by one, and changes nothing else.
    pub open spec fn mint_success(pre: Self, post: Self, info: MessageInfo, msg: MintMsg<T>) -> bool {
        &&& post.tokens@.len() == pre.tokens@.len() + 1
        &&& forall|i: int| 0 <= i < pre.tokens@.len() ==> post.tokens@[i] == pre.tokens@[i]
        &&& post.tokens@.last().token_id == msg.token_id
        &&& post.tokens@.last().info.owner == info.sender
        &&& post.tokens@.last().info.approvals@ == Seq::<Approval>::empty()
        &&& post.tokens@.last().info.token_uri == msg.token_uri
        &&& post.tokens@.last().info.extension == msg.extension
        &&& post.token_count == pre.token_count + 1
        &&& post.operators@ == pre.operators@
        &&& post.config_unchanged(pre)
    }

    /// The success payload of a mint: the action, the minter, the minted
    /// id, and — informationally — the contract's first-denomination
    /// holdings as reported by the host.
    pub open spec fn mint_response(resp: Response, env: Env, info: MessageInfo, msg: MintMsg<T>) -> bool {
        &&& resp.messages@.len() == 0
        &&& resp.attributes@.len() == 4
        &&& resp.attributes@[0].key@ == "action"@
        &&& resp.attributes@[0].value@ == "mint"@
        &&& resp.attributes@[1].key@ == "minter"@
        &&& resp.attributes@[1].value == info.sender
        &&& resp.attributes@[2].key@ == "token_id"@
        &&& resp.attributes@[2].value@ == msg.token_id@
        &&& resp.attributes@[3].key@ == "contract_balance"@
        &&& resp.attributes@[3].value@ == (if env.contract_balance@.len() > 0 {
            decimal_of(env.contract_balance@[0].amount)
        } else {
            Seq::<char>::empty()
        })
    }

    /// The full behaviour of a mint: the first failing gate's error with
    /// the state unchanged, or the success transition and payload.
    pub open spec fn mint_post(
        pre: Self,
        post: Self,
        env: Env,
        info: MessageInfo,
        msg: MintMsg<T>,
        r: Result<Response, ContractError>,
    ) -> bool {
        match Self::mint_error(pre, info, msg) {
            Some(e) => r == Err::<Response, ContractError>(e) && post == pre,
            None => {
                &&& r is Ok
                &&& Self::mint_success(pre, post, info, msg)
                &&& Self::mint_response(r->Ok_0, env, info, msg)
            },
        }
    }

    /// Creates a token owned by the requesting actor, gated by presale
    /// allow-listing, the supply cap, id uniqueness, and fee payment.
    /// An error commits nothing.
    pub fn mint(&mut self, env: &Env, info: &MessageInfo, msg: MintMsg<T>) -> (r: Result<
        Response,
        ContractError,
    >)
        requires
            old(self).wf(),
        ensures
            final(self).wf(),
            Self::mint_post(*old(self), *final(self), *env, *info, msg, r),
    {
        let minter = &info.sender;

        if self.is_presale {
            let is_white_listed = self.white_list.is_white_listed(minter);
            if !is_white_listed {
                return Err(ContractError::Unauthorized);
            }
        }

        if self.token_count == self.max_tokens {
            return Err(ContractError::MaxTokensReached);
        }

        if self.find_token(&msg.token_id).is_some() {
            return Err(ContractError::Claimed);
        }

        if info.funds.len() == 0 {
            return Err(ContractError::InsufficientPayment);
        }
        if info.funds[0].amount < self.minting_fee {
            return Err(ContractError::InsufficientPayment);
        }

        let token_id_attr = msg.token_id.clone();
        let token = TokenInfo {
            owner: info.sender.clone(),
            approvals: Vec::new(),
            token_uri: msg.token_uri,
            extension: msg.extension,
        };
        let ghost pre = *self;
        self.tokens.push(TokenEntry { token_id: msg.token_id, info: token });
        self.token_count = self.token_count + 1;

        proof {
            assert forall|i: int, j: int| 0 <= i < j < self.tokens@.len() implies self.tokens@[i].token_id@
                != self.tokens@[j].token_id@ by {
                if j < pre.tokens@.len() {
                    assert(pre.tokens@[i].token_id@ != pre.tokens@[j].token_id@);
                } else {
                    assert(!pre.has_token(msg.token_id@));
                }
            }
        }

        let contract_balance = if env.contract_balance.len() > 0 {
            u128_to_string(env.contract_balance[0].amount)
        } else {
            String::new()
        };

        let resp = Response::new().add_attribute("action", String::from_str("mint")).add_attribute(
            "minter",
            info.sender.clone(),
        ).add_attribute("token_id", token_id_attr).add_attribute(
            "contract_balance",
            contract_balance,
        );
        Ok(resp)
    }

    /// Returns `Ok` exactly when the actor may mutate the token's
    /// approvals: the owner may, and so may an unexpired operator of the
    /// owner. Denial is always `Unauthorized`.
    pub fn check_can_approve(&self, env: &Env, info: &MessageInfo, token: &TokenInfo<T>) -> (r:
        Result<(), ContractError>)
        requires
            self.wf(),
        ensures
            r is Ok <==> self.spec_can_approve(*token, info.sender@, env.block),
            r is Err ==> r == Err::<(), ContractError>(ContractError::Unauthorized),
    {
        if token.owner == info.sender {
            return Ok(());
        }
        match self.find_operator(&token.owner, &info.sender) {
            Some(i) => {
                if self.operators[i].expires.is_expired(&env.block) {
                    Err(ContractError::Unauthorized)
                } else {
                    Ok(())
                }
            },
            None => Err(ContractError::Unauthorized),
        }
    }

    /// Returns `Ok` exactly when the actor may transfer the token: the
    /// owner, an unexpired per-token approval holder, or an unexpired
    /// operator of the owner. Denial is always `Unauthorized`.
    fn check_can_send(&self, env: &Env, info: &MessageInfo, token: &TokenInfo<T>) -> (r: Result<
        (),
        ContractError,
    >)
        requires
            self.wf(),
        ensures
            r is Ok <==> self.spec_can_send(*token, info.sender@, env.block),
            r is Err ==> r == Err::<(), ContractError>(ContractError::Unauthorized),
    {
        if token.owner == info.sender {
            return Ok(());
        }

        let mut i: usize = 0;
        while i < token.approvals.len()
            invariant
                i <= token.approvals@.len(),
                forall|j: int|
                    0 <= j < i ==> !(token.approvals@[j].spender@ == info.sender@
                        && !token.approvals@[j].expires.spec_is_expired(env.block)),
            decreases token.approvals@.len() - i,
        {
            let apr = &token.approvals[i];
            if apr.spender == info.sender && !apr.is_expired(&env.block) {
                return Ok(());
            }
            i += 1;
        }

        match self.find_operator(&token.owner, &info.sender) {
            Some(k) => {
                if self.operators[k].expires.is_expired(&env.block) {
                    Err(ContractError::Unauthorized)
                } else {
                    Ok(())
                }
            },
            None => Err(ContractError::Unauthorized),
        }
    }
}

impl<T> Cw721Contract<T> {
    /// Which gate a transfer-type request fails on, in order: a missing
    /// token, then send authorization.
    pub open spec fn transfer_error(pre: Self, env: Env, info: MessageInfo, token_id: Seq<char>) -> Option<ContractError> {
        if !pre.has_token(token_id) {
            Some(ContractError::NotFound)
        } else if !pre.spec_can_send(pre.token_of(token_id), info.sender@, env.block) {
            Some(ContractError::Unauthorized)
        } else {
            None
        }
    }

    /// A successful transfer rewrites the token's owner to the recipient
    /// and clears its approval list; every other record, the counters and
    /// the configuration are untouched.
    pub open spec fn transfer_success(pre: Self, post: Self, recipient: String, token_id: Seq<char>) -> bool {
        let i = pre.token_idx(token_id);
        &&& post.tokens@.len() == pre.tokens@.len()
        &&& forall|j: int| 0 <= j < pre.tokens@.len() && j != i ==> post.tokens@[j] == pre.tokens@[j]
        &&& post.tokens@[i].token_id == pre.tokens@[i].token_id
        &&& post.tokens@[i].info.owner == recipient
        &&& post.tokens@[i].info.approvals@ == Seq::<Approval>::empty()
        &&& post.tokens@[i].info.token_uri == pre.tokens@[i].info.token_uri
        &&& post.tokens@[i].info.extension == pre.tokens@[i].info.extension
        &&& post.token_count == pre.token_count
        &&& post.operators@ == pre.operators@
        &&& post.config_unchanged(pre)
    }

    /// The full behaviour of the custody-change step shared by transfer
    /// and send.
    pub open spec fn transfer_post(
        pre: Self,
        post: Self,
        env: Env,
        info: MessageInfo,
        recipient: String,
        token_id: Seq<char>,
        r: Result<(), ContractError>,
    ) -> bool {
        match Self::transfer_error(pre, env, info, token_id) {
            Some(e) => r is Err && r->Err_0 == e && post == pre,
            None => r is Ok && Self::transfer_success(pre, post, recipient, token_id),
        }
    }

    /// Moves custody of the token to the recipient and clears its
    /// approvals, when the actor may send it. The recipient has been
    /// validated by the host. An error commits nothing.
    pub fn _transfer_nft(&mut self, env: &Env, info: &MessageInfo, recipient: String, token_id: &String) -> (r: Result<(), ContractError>)
        requires
            old(self).wf(),
        ensures
            final(self).wf(),
            Self::transfer_post(*old(self), *final(self), *env, *info, recipient, token_id@, r),
    {
        let idx = match self.find_token(token_id) {
            Some(i) => i,
            None => {
                return Err(ContractError::NotFound);
            },
        };
        match self.check_can_send(env, info, &self.tokens[idx].info) {
            Ok(()) => {},
            Err(e) => {
                return Err(e);
            },
        }
        let ghost pre = *self;
        let mut entry = self.tokens.remove(idx);
        entry.info.owner = recipient;
        entry.info.approvals = Vec::new();
        let ghost new_entry = entry;
        self.tokens.insert(idx, entry);
        proof {
            vstd::seq_lib::lemma_update_is_remove_insert(pre.tokens@, idx as int, new_entry);
            assert(self.tokens@ == pre.tokens@.update(idx as int, new_entry));
        }
        Ok(())
    }

    /// Which gate an approval-list mutation fails on, in order: a missing
    /// token, approve authorization, then — when granting — an expiration
    /// already in the past.
    pub open spec fn update_approvals_error(
        pre: Self,
        env: Env,
        info: MessageInfo,
        token_id: Seq<char>,
        add: bool,
        expires: Option<Expiration>,
    ) -> Option<ContractError> {
        if !pre.has_token(token_id) {
            Some(ContractError::NotFound)
        } else if !pre.spec_can_approve(pre.token_of(token_id), info.sender@, env.block) {
            Some(ContractError::Unauthorized)
        } else if add && spec_resolve_expiration(expires).spec_is_expired(env.block) {
            Some(ContractError::Expired)
        } else {
            None
        }
    }

    /// A successful mutation removes any existing approval for the spender
    /// and, when granting, appends the new one; the token's owner, URI and
    /// extension, every other record, and the rest of the state are
    /// untouched.
    pub open spec fn update_approvals_success(
        pre: Self,
        post: Self,
        spender: String,
        token_id: Seq<char>,
        add: bool,
        expires: Option<Expiration>,
    ) -> bool {
        let i = pre.token_idx(token_id);
        let kept = approvals_except(pre.tokens@[i].info.approvals@, spender@);
        &&& post.tokens@.len() == pre.tokens@.len()
        &&& forall|j: int| 0 <= j < pre.tokens@.len() && j != i ==> post.tokens@[j] == pre.tokens@[j]
        &&& post.tokens@[i].token_id == pre.tokens@[i].token_id
        &&& post.tokens@[i].info.owner == pre.tokens@[i].info.owner
        &&& post.tokens@[i].info.token_uri == pre.tokens@[i].info.token_uri
        &&& post.tokens@[i].info.extension == pre.tokens@[i].info.extension
        &&& post.tokens@[i].info.approvals@ == (if add {
            kept.push(Approval { spender, expires: spec_resolve_expiration(expires) })
        } else {
            kept
        })
        &&& post.token_count == pre.token_count
        &&& post.operators@ == pre.operators@
        &&& post.config_unchanged(pre)
    }

    /// The full behaviour of the approval-list mutation shared by approve
    /// and revoke.
    pub open spec fn update_approvals_post(
        pre: Self,
        post: Self,
        env: Env,
        info: MessageInfo,
        spender: String,
        token_id: Seq<char>,
        add: bool,
        expires: Option<Expiration>,
        r: Result<(), ContractError>,
    ) -> bool {
        match Self::update_approvals_error(pre, env, info, token_id, add, expires) {
            Some(e) => r is Err && r->Err_0 == e && post == pre,
            None => r is Ok && Self::update_approvals_success(pre, post, spender, token_id, add, expires),
        }
    }

    /// Removes any approval the spender holds on the token and, when `add`
    /// holds, grants a fresh one with the resolved expiration; gated by
    /// approve authorization. The spender has been validated by the host.
    /// An error commits nothing.
    pub fn _update_approvals(
        &mut self,
        env: &Env,
        info: &MessageInfo,
        spender: String,
        token_id: &String,
        add: bool,
        expires: Option<Expiration>,
    ) -> (r: Result<(), ContractError>)
        requires
            old(self).wf(),
        ensures
            final(self).wf(),
            Self::update_approvals_post(*old(self), *final(self), *env, *info, spender, token_id@, add, expires, r),
    {
        let idx = match self.find_token(token_id) {
            Some(i) => i,
            None => {
                return Err(ContractError::NotFound);
            },
        };
        match self.check_can_approve(env, info, &self.tokens[idx].info) {
            Ok(()) => {},
            Err(e) => {
                return Err(e);
            },
        }
        let resolved = resolve_expiration(expires);
        if add && resolved.is_expired(&env.block) {
            return Err(ContractError::Expired);
        }

        let ghost pre = *self;
        let mut entry = self.tokens.remove(idx);
        let ghost orig = entry.info.approvals@;
        proof {
            assert(pre.tokens@[idx as int].info.wf());
            reveal(Seq::<Approval>::filter);
            assert(orig.subrange(0, 0) =~= Seq::<Approval>::empty());
        }
        let mut kept: Vec<Approval> = Vec::new();
        let mut k: usize = 0;
        while k < entry.info.approvals.len()
            invariant
                k <= orig.len(),
                entry.info.approvals@ == orig,
                kept@ == approvals_except(orig.subrange(0, k as int), spender@),
            decreases orig.len() - k,
        {
            let a = entry.info.approvals[k].clone();
            proof {
                lemma_approvals_except_step(orig, spender@, k as int);
            }
            if !(a.spender == spender) {
                kept.push(a);
            }
            k += 1;
        }
        proof {
            assert(orig.subrange(0, orig.len() as int) =~= orig);
            lemma_approvals_except_props(orig, spender@);
            lemma_approvals_except_distinct(orig, spender@);
        }
        if add {
            kept.push(Approval { spender, expires: resolved });
        }
        entry.info.approvals = kept;
        let ghost new_entry = entry;
        self.tokens.insert(idx, entry);
        proof {
            vstd::seq_lib::lemma_update_is_remove_insert(pre.tokens@, idx as int, new_entry);
            assert(self.tokens@ == pre.tokens@.update(idx as int, new_entry));
        }
        Ok(())
    }
}

impl<T> Cw721Contract<T> {
    /// The response of a successful transfer, approve or revoke: the
    /// action name and its three participants.
    pub open spec fn action_response(
        resp: Response,
        action: Seq<char>,
        sender: String,
        k2: Seq<char>,
        v2: String,
        token_id: String,
    ) -> bool {
        &&& resp.messages@.len() == 0
        &&& resp.attributes@.len() == 4
        &&& resp.attributes@[0].key@ == "action"@
        &&& resp.attributes@[0].value@ == action
        &&& resp.attributes@[1].key@ == "sender"@
        &&& resp.attributes@[1].value == sender
        &&& resp.attributes@[2].key@ == k2
        &&& resp.attributes@[2].value == v2
        &&& resp.attributes@[3].key@ == "token_id"@
        &&& resp.attributes@[3].value == token_id
    }

    /// The full behaviour of a transfer request.
    pub open spec fn transfer_nft_post(
        pre: Self,
        post: Self,
        env: Env,
        info: MessageInfo,
        recipient: String,
        token_id: String,
        r: Result<Response, ContractError>,
    ) -> bool {
        match Self::transfer_error(pre, env, info, token_id@) {
            Some(e) => r is Err && r->Err_0 == e && post == pre,
            None => {
                &&& r is Ok
                &&& Self::transfer_success(pre, post, recipient, token_id@)
                &&& Self::action_response(r->Ok_0, "transfer_nft"@, info.sender, "recipient"@, recipient, token_id)
            },
        }
    }

    /// Transfers custody of the token to the recipient, clearing its
    /// approvals; no fee, no payment check. An error commits nothing.
    pub fn transfer_nft(&mut self, env: &Env, info: &MessageInfo, recipient: String, token_id: String) -> (r: Result<Response, ContractError>)
        requires
            old(self).wf(),
        ensures
            final(self).wf(),
            Self::transfer_nft_post(*old(self), *final(self), *env, *info, recipient, token_id, r),
    {
        let owner = recipient.clone();
        match self._transfer_nft(env, info, owner, &token_id) {
            Ok(()) => {},
            Err(e) => {
                return Err(e);
            },
        }
        let resp = Response::new().add_attribute("action", String::from_str("transfer_nft"))
            .add_attribute("sender", info.sender.clone())
            .add_attribute("recipient", recipient)
            .add_attribute("token_id", token_id);
        Ok(resp)
    }

    /// The full behaviour of a send request: the transfer, plus a
    /// delivery instruction addressed to the target contract.
    pub open spec fn send_nft_post(
        pre: Self,
        post: Self,
        env: Env,
        info: MessageInfo,
        contract: String,
        token_id: String,
        msg: Vec<u8>,
        r: Result<Response, ContractError>,
    ) -> bool {
        match Self::transfer_error(pre, env, info, token_id@) {
            Some(e) => r is Err && r->Err_0 == e && post == pre,
            None => {
                &&& r is Ok
                &&& Self::transfer_success(pre, post, contract, token_id@)
                &&& r->Ok_0.messages@.len() == 1
                &&& r->Ok_0.messages@[0] == (OutMsg::Cw721Receive {
                    contract,
                    sender: info.sender,
                    token_id,
                    msg,
                })
                &&& r->Ok_0.attributes@.len() == 4
                &&& r->Ok_0.attributes@[0].key@ == "action"@
                &&& r->Ok_0.attributes@[0].value@ == "send_nft"@
                &&& r->Ok_0.attributes@[1].key@ == "sender"@
                &&& r->Ok_0.attributes@[1].value == info.sender
                &&& r->Ok_0.attributes@[2].key@ == "recipient"@
                &&& r->Ok_0.attributes@[2].value == contract
                &&& r->Ok_0.attributes@[3].key@ == "token_id"@
                &&& r->Ok_0.attributes@[3].value == token_id
            },
        }
    }

    /// Transfers custody to the target contract exactly as a transfer
    /// does, and additionally returns a fire-and-forget delivery
    /// instruction carrying the actor, the token id and the payload,
    /// addressed to that contract. An error commits nothing.
    pub fn send_nft(&mut self, env: &Env, info: &MessageInfo, contract: String, token_id: String, msg: Vec<u8>) -> (r: Result<Response, ContractError>)
        requires
            old(self).wf(),
        ensures
            final(self).wf(),
            Self::send_nft_post(*old(self), *final(self), *env, *info, contract, token_id, msg, r),
    {
        let owner = contract.clone();
        match self._transfer_nft(env, info, owner, &token_id) {
            Ok(()) => {},
            Err(e) => {
                return Err(e);
            },
        }
        let send = OutMsg::Cw721Receive {
            contract: contract.clone(),
            sender: info.sender.clone(),
            token_id: token_id.clone(),
            msg,
        };
        let resp = Response::new().add_message(send)
            .add_attribute("action", String::from_str("send_nft"))
            .add_attribute("sender", info.sender.clone())
            .add_attribute("recipient", contract)
            .add_attribute("token_id", token_id);
        Ok(resp)
    }

    /// The full behaviour of an approve request.
    pub open spec fn approve_post(
        pre: Self,
        post: Self,
        env: Env,
        info: MessageInfo,
        spender: String,
        token_id: String,
        expires: Option<Expiration>,
        r: Result<Response, ContractError>,
    ) -> bool {
        match Self::update_approvals_error(pre, env, info, token_id@, true, expires) {
            Some(e) => r is Err && r->Err_0 == e && post == pre,
            None => {
                &&& r is Ok
                &&& Self::update_approvals_success(pre, post, spender, token_id@, true, expires)
                &&& Self::action_response(r->Ok_0, "approve"@, info.sender, "spender"@, spender, token_id)
            },
        }
    }

    /// Grants the spender an approval on the token with the resolved
    /// expiration, replacing any approval the spender already held; gated
    /// by approve authorization. An error commits nothing.
    pub fn approve(&mut self, env: &Env, info: &MessageInfo, spender: String, token_id: String, expires: Option<Expiration>) -> (r: Result<Response, ContractError>)
        requires
            old(self).wf(),
        ensures
            final(self).wf(),
            Self::approve_post(*old(self), *final(self), *env, *info, spender, token_id, expires, r),
    {
        let granted = spender.clone();
        match self._update_approvals(env, info, granted, &token_id, true, expires) {
            Ok(()) => {},
            Err(e) => {
                return Err(e);
            },
        }
        let resp = Response::new().add_attribute("action", String::from_str("approve"))
            .add_attribute("sender", info.sender.clone())
            .add_attribute("spender", spender)
            .add_attribute("token_id", token_id);
        Ok(resp)
    }

    /// The full behaviour of a revoke request.
    pub open spec fn revoke_post(
        pre: Self,
        post: Self,
        env: Env,
        info: MessageInfo,
        spender: String,
        token_id: String,
        r: Result<Response, ContractError>,
    ) -> bool {
        match Self::update_approvals_error(pre, env, info, token_id@, false, None) {
            Some(e) => r is Err && r->Err_0 == e && post == pre,
            None => {
                &&& r is Ok
                &&& Self::update_approvals_success(pre, post, spender, token_id@, false, None)
                &&& Self::action_response(r->Ok_0, "revoke"@, info.sender, "spender"@, spender, token_id)
            },
        }
    }

    /// Removes any approval the spender holds on the token; gated by
    /// approve authorization. An error commits nothing.
    pub fn revoke(&mut self, env: &Env, info: &MessageInfo, spender: String, token_id: String) -> (r: Result<Response, ContractError>)
        requires
            old(self).wf(),
        ensures
            final(self).wf(),
            Self::revoke_post(*old(self), *final(self), *env, *info, spender, token_id, r),
    {
        let revoked = spender.clone();
        match self._update_approvals(env, info, revoked, &token_id, false, None) {
            Ok(()) => {},
            Err(e) => {
                return Err(e);
            },
        }
        let resp = Response::new().add_attribute("action", String::from_str("revoke"))
            .add_attribute("sender", info.sender.clone())
            .add_attribute("spender", spender)
            .add_attribute("token_id", token_id);
        Ok(resp)
    }

    /// The response of a successful operator-delegation request.
    pub open spec fn operator_response(resp: Response, action: Seq<char>, sender: String, operator: String) -> bool {
        &&& resp.messages@.len() == 0
        &&& resp.attributes@.len() == 3
        &&& resp.attributes@[0].key@ == "action"@
        &&& resp.attributes@[0].value@ == action
        &&& resp.attributes@[1].key@ == "sender"@
        &&& resp.attributes@[1].value == sender
        &&& resp.attributes@[2].key@ == "operator"@
        &&& resp.attributes@[2].value == operator
    }

    /// A successful grant upserts the delegation entry for
    /// (actor, operator) to the resolved expiration; the token table and
    /// the configuration are untouched.
    pub open spec fn approve_all_success(pre: Self, post: Self, info: MessageInfo, operator: String, expires: Option<Expiration>) -> bool {
        let e = spec_resolve_expiration(expires);
        &&& if pre.has_operator(info.sender@, operator@) {
            let i = pre.operator_idx(info.sender@, operator@);
            &&& post.operators@.len() == pre.operators@.len()
            &&& forall|j: int| 0 <= j < pre.operators@.len() && j != i ==> post.operators@[j] == pre.operators@[j]
            &&& post.operators@[i].owner == pre.operators@[i].owner
            &&& post.operators@[i].operator == pre.operators@[i].operator
            &&& post.operators@[i].expires == e
        } else {
            &&& post.operators@.len() == pre.operators@.len() + 1
            &&& forall|j: int| 0 <= j < pre.operators@.len() ==> post.operators@[j] == pre.operators@[j]
            &&& post.operators@.last().owner == info.sender
            &&& post.operators@.last().operator == operator
            &&& post.operators@.last().expires == e
        }
        &&& post.tokens@ == pre.tokens@
        &&& post.token_count == pre.token_count
        &&& post.config_unchanged(pre)
    }

    /// The full behaviour of an operator grant: an expiration already in
    /// the past is rejected, else the delegation is upserted.
    pub open spec fn approve_all_post(
        pre: Self,
        post: Self,
        env: Env,
        info: MessageInfo,
        operator: String,
        expires: Option<Expiration>,
        r: Result<Response, ContractError>,
    ) -> bool {
        if spec_resolve_expiration(expires).spec_is_expired(env.block) {
            r is Err && r->Err_0 == ContractError::Expired && post == pre
        } else {
            &&& r is Ok
            &&& Self::approve_all_success(pre, post, info, operator, expires)
            &&& Self::operator_response(r->Ok_0, "approve_all"@, info.sender, operator)
        }
    }

    /// Grants the operator authority over all of the actor's tokens until
    /// the resolved expiration, replacing any existing delegation for the
    /// pair. The operator address has been validated by the host. An
    /// error commits nothing.
    pub fn approve_all(&mut self, env: &Env, info: &MessageInfo, operator: String, expires: Option<Expiration>) -> (r: Result<Response, ContractError>)
        requires
            old(self).wf(),
        ensures
            final(self).wf(),
            Self::approve_all_post(*old(self), *final(self), *env, *info, operator, expires, r),
    {
        let resolved = resolve_expiration(expires);
        if resolved.is_expired(&env.block) {
            return Err(ContractError::Expired);
        }

        let ghost pre = *self;
        match self.find_operator(&info.sender, &operator) {
            Some(i) => {
                let mut entry = self.operators.remove(i);
                entry.expires = resolved;
                let ghost new_entry = entry;
                self.operators.insert(i, entry);
                proof {
                    vstd::seq_lib::lemma_update_is_remove_insert(pre.operators@, i as int, new_entry);
                    assert(self.operators@ == pre.operators@.update(i as int, new_entry));
                }
            },
            None => {
                let ghost olds = self.operators@;
                self.operators.push(OperatorEntry {
                    owner: info.sender.clone(),
                    operator: operator.clone(),
                    expires: resolved,
                });
                proof {
                    assert forall|i: int, j: int| 0 <= i < j < self.operators@.len() implies !(
                        self.operators@[i].owner@ == self.operators@[j].owner@
                        && self.operators@[i].operator@ == self.operators@[j].operator@) by {
                        if j < olds.len() {
                            assert(!(olds[i].owner@ == olds[j].owner@ && olds[i].operator@ == olds[j].operator@));
                        } else {
                            assert(!pre.has_operator(info.sender@, operator@));
                        }
                    }
                }
            },
        }
        let resp = Response::new().add_attribute("action", String::from_str("approve_all"))
            .add_attribute("sender", info.sender.clone())
            .add_attribute("operator", operator);
        Ok(resp)
    }

    /// A revocation deletes the delegation entry when present and is a
    /// no-op otherwise; the token table and the configuration are
    /// untouched.
    pub open spec fn revoke_all_success(pre: Self, post: Self, info: MessageInfo, operator: String) -> bool {
        &&& if pre.has_operator(info.sender@, operator@) {
            post.operators@ == pre.operators@.remove(pre.operator_idx(info.sender@, operator@))
        } else {
            post.operators@ == pre.operators@
        }
        &&& post.tokens@ == pre.tokens@
        &&& post.token_count == pre.token_count
        &&& post.config_unchanged(pre)
    }

    /// The full behaviour of an operator revocation; it never fails.
    pub open spec fn revoke_all_post(
        pre: Self,
        post: Self,
        info: MessageInfo,
        operator: String,
        r: Result<Response, ContractError>,
    ) -> bool {
        &&& r is Ok
        &&& Self::revoke_all_success(pre, post, info, operator)
        &&& Self::operator_response(r->Ok_0, "revoke_all"@, info.sender, operator)
    }

    /// Deletes the actor's delegation to the operator; revoking an absent
    /// delegation is not an error. The operator address has been
    /// validated by the host.
    pub fn revoke_all(&mut self, env: &Env, info: &MessageInfo, operator: String) -> (r: Result<Response, ContractError>)
        requires
            old(self).wf(),
        ensures
            final(self).wf(),
            Self::revoke_all_post(*old(self), *final(self), *info, operator, r),
    {
        let ghost pre = *self;
        match self.find_operator(&info.sender, &operator) {
            Some(i) => {
                self.operators.remove(i);
                proof {
                    assert forall|a: int, b: int| 0 <= a < b < self.operators@.len() implies !(
                        self.operators@[a].owner@ == self.operators@[b].owner@
                        && self.operators@[a].operator@ == self.operators@[b].operator@) by {
                        let a0: int = if a < i { a } else { a + 1 };
                        let b0: int = if b < i { b } else { b + 1 };
                        assert(self.operators@[a] == pre.operators@[a0]);
                        assert(self.operators@[b] == pre.operators@[b0]);
                        assert(!(pre.operators@[a0].owner@ == pre.operators@[b0].owner@
                            && pre.operators@[a0].operator@ == pre.operators@[b0].operator@));
                    }
                }
            },
            None => {},
        }
        let resp = Response::new().add_attribute("action", String::from_str("revoke_all"))
            .add_attribute("sender", info.sender.clone())
            .add_attribute("operator", operator);
        Ok(resp)
    }
}

impl<T> Cw721Contract<T> {
    /// The full behaviour of an allow-list replacement: admin only, and
    /// the list is replaced wholesale.
    pub open spec fn update_white_list_post(
        pre: Self,
        post: Self,
        info: MessageInfo,
        addresses: Vec<String>,
        r: Result<Response, ContractError>,
    ) -> bool {
        if pre.admin@ != info.sender@ {
            r is Err && r->Err_0 == ContractError::Unauthorized && post == pre
        } else {
            &&& r is Ok
            &&& post.white_list.addresses == addresses
            &&& post.tokens@ == pre.tokens@
            &&& post.operators@ == pre.operators@
            &&& post.token_count == pre.token_count
            &&& post.contract_info == pre.contract_info
            &&& post.max_tokens == pre.max_tokens
            &&& post.admin == pre.admin
            &&& post.is_presale == pre.is_presale
            &&& post.minting_fee == pre.minting_fee
            &&& r->Ok_0.messages@.len() == 0
            &&& r->Ok_0.attributes@.len() == 1
            &&& r->Ok_0.attributes@[0].key@ == "action"@
            &&& r->Ok_0.attributes@[0].value@ == "update_white_list"@
        }
    }

    /// Replaces the allow-list wholesale; only the admin may. The
    /// addresses have been validated by the host. An error commits
    /// nothing.
    pub fn execute_update_white_list(&mut self, env: &Env, info: &MessageInfo, addresses: Vec<String>) -> (r: Result<Response, ContractError>)
        requires
            old(self).wf(),
        ensures
            final(self).wf(),
            Self::update_white_list_post(*old(self), *final(self), *info, addresses, r),
    {
        if !(self.admin == info.sender) {
            return Err(ContractError::Unauthorized);
        }
        self.white_list = WhiteList { addresses };
        let resp = Response::new().add_attribute("action", String::from_str("update_white_list"));
        Ok(resp)
    }

    /// The full behaviour of a presale toggle: admin only.
    pub open spec fn set_presale_post(
        pre: Self,
        post: Self,
        info: MessageInfo,
        is_presale: bool,
        r: Result<Response, ContractError>,
    ) -> bool {
        if pre.admin@ != info.sender@ {
            r is Err && r->Err_0 == ContractError::Unauthorized && post == pre
        } else {
            &&& r is Ok
            &&& post.is_presale == is_presale
            &&& post.tokens@ == pre.tokens@
            &&& post.operators@ == pre.operators@
            &&& post.token_count == pre.token_count
            &&& post.contract_info == pre.contract_info
            &&& post.max_tokens == pre.max_tokens
            &&& post.admin == pre.admin
            &&& post.white_list == pre.white_list
            &&& post.minting_fee == pre.minting_fee
            &&& r->Ok_0.messages@.len() == 0
            &&& r->Ok_0.attributes@.len() == 2
            &&& r->Ok_0.attributes@[0].key@ == "action"@
            &&& r->Ok_0.attributes@[0].value@ == "set_presale_status"@
            &&& r->Ok_0.attributes@[1].key@ == "presale_status"@
            &&& r->Ok_0.attributes@[1].value@ == (if is_presale { "true"@ } else { "false"@ })
        }
    }

    /// Sets the presale flag; only the admin may. An error commits
    /// nothing.
    pub fn set_presale_status(&mut self, env: &Env, info: &MessageInfo, is_presale: bool) -> (r: Result<Response, ContractError>)
        requires
            old(self).wf(),
        ensures
            final(self).wf(),
            Self::set_presale_post(*old(self), *final(self), *info, is_presale, r),
    {
        if !(self.admin == info.sender) {
            return Err(ContractError::Unauthorized);
        }
        self.is_presale = is_presale;
        let resp = Response::new().add_attribute("action", String::from_str("set_presale_status"))
            .add_attribute("presale_status", bool_to_string(is_presale));
        Ok(resp)
    }

    /// Which gate a withdrawal fails on, in order: admin identity, empty
    /// holdings, then the requested amount against the first-denomination
    /// balance. Only the first listed denomination is ever consulted.
    pub open spec fn withdraw_error(pre: Self, env: Env, info: MessageInfo, withdraw_amount: u128) -> Option<ContractError> {
        if pre.admin@ != info.sender@ {
            Some(ContractError::Unauthorized)
        } else if env.contract_balance@.len() == 0 {
            Some(ContractError::InsufficientBalance)
        } else if withdraw_amount > env.contract_balance@[0].amount {
            Some(ContractError::InsufficientBalance)
        } else {
            None
        }
    }

    /// The full behaviour of a withdrawal: it never mutates the state;
    /// success emits exactly one payment of the requested amount, in the
    /// first-denomination of the holdings, to the admin.
    pub open spec fn withdraw_post(
        pre: Self,
        post: Self,
        env: Env,
        info: MessageInfo,
        withdraw_amount: u128,
        r: Result<Response, ContractError>,
    ) -> bool {
        &&& post == pre
        &&& match Self::withdraw_error(pre, env, info, withdraw_amount) {
            Some(e) => r is Err && r->Err_0 == e,
            None => {
                &&& r is Ok
                &&& r->Ok_0.attributes@.len() == 0
                &&& r->Ok_0.messages@.len() == 1
                &&& r->Ok_0.messages@[0] matches OutMsg::BankSend { to_address, amount }
                    && to_address == pre.admin && amount@.len() == 1
                    && amount@[0].denom@ == env.contract_balance@[0].denom@
                    && amount@[0].amount == withdraw_amount
            },
        }
    }

    /// Pays the requested amount, in the first denomination of the
    /// contract's holdings, out to the admin; only the admin may request
    /// it, and only up to the first-denomination balance.
    pub fn withdraw_balance(&mut self, env: &Env, info: &MessageInfo, withdraw_amount: u128) -> (r: Result<Response, ContractError>)
        requires
            old(self).wf(),
        ensures
            final(self).wf(),
            Self::withdraw_post(*old(self), *final(self), *env, *info, withdraw_amount, r),
    {
        if !(self.admin == info.sender) {
            return Err(ContractError::Unauthorized);
        }
        if env.contract_balance.len() == 0 {
            return Err(ContractError::InsufficientBalance);
        }
        if withdraw_amount > env.contract_balance[0].amount {
            return Err(ContractError::InsufficientBalance);
        }

        let mut amount: Vec<Coin> = Vec::new();
        amount.push(Coin { denom: env.contract_balance[0].denom.clone(), amount: withdraw_amount });
        let resp = Response::new().add_message(OutMsg::BankSend {
            to_address: self.admin.clone(),
            amount,
        });
        Ok(resp)
    }

    /// Routes a request to exactly one pipeline; the contract of each
    /// pipeline carries over unchanged.
    pub fn execute(&mut self, env: &Env, info: &MessageInfo, msg: ExecuteMsg<T>) -> (r: Result<Response, ContractError>)
        requires
            old(self).wf(),
        ensures
            final(self).wf(),
            match msg {
                ExecuteMsg::Mint(m) => Self::mint_post(*old(self), *final(self), *env, *info, m, r),
                ExecuteMsg::Approve { spender, token_id, expires } => Self::approve_post(
                    *old(self), *final(self), *env, *info, spender, token_id, expires, r,
                ),
                ExecuteMsg::Revoke { spender, token_id } => Self::revoke_post(
                    *old(self), *final(self), *env, *info, spender, token_id, r,
                ),
                ExecuteMsg::ApproveAll { operator, expires } => Self::approve_all_post(
                    *old(self), *final(self), *env, *info, operator, expires, r,
                ),
                ExecuteMsg::RevokeAll { operator } => Self::revoke_all_post(
                    *old(self), *final(self), *info, operator, r,
                ),
                ExecuteMsg::TransferNft { recipient, token_id } => Self::transfer_nft_post(
                    *old(self), *final(self), *env, *info, recipient, token_id, r,
                ),
                ExecuteMsg::SendNft { contract, token_id, msg } => Self::send_nft_post(
                    *old(self), *final(self), *env, *info, contract, token_id, msg, r,
                ),
                ExecuteMsg::UpdateWhiteList { addresses } => Self::update_white_list_post(
                    *old(self), *final(self), *info, addresses, r,
                ),
                ExecuteMsg::SetPresaleStatus(is_presale) => Self::set_presale_post(
                    *old(self), *final(self), *info, is_presale, r,
                ),
                ExecuteMsg::WithdrawBalance(amount) => Self::withdraw_post(
                    *old(self), *final(self), *env, *info, amount, r,
                ),
            },
    {
        match msg {
            ExecuteMsg::Mint(m) => self.mint(env, info, m),
            ExecuteMsg::Approve { spender, token_id, expires } => self.approve(env, info, spender, token_id, expires),
            ExecuteMsg::Revoke { spender, token_id } => self.revoke(env, info, spender, token_id),
            ExecuteMsg::ApproveAll { operator, expires } => self.approve_all(env, info, operator, expires),
            ExecuteMsg::RevokeAll { operator } => self.revoke_all(env, info, operator),
            ExecuteMsg::TransferNft { recipient, token_id } => self.transfer_nft(env, info, recipient, token_id),
            ExecuteMsg::SendNft { contract, token_id, msg } => self.send_nft(env, info, contract, token_id, msg),
            ExecuteMsg::UpdateWhiteList { addresses } => self.execute_update_white_list(env, info, addresses),
            ExecuteMsg::SetPresaleStatus(is_presale) => self.set_presale_status(env, info, is_presale),
            ExecuteMsg::WithdrawBalance(amount) => self.withdraw_balance(env, info, amount),
        }
    }
}

} // verus!
