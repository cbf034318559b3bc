//! Entry points of the bridge engine.
//!
//! Each handler is specified by a spec-level transition function over
//! [`StateView`]: the handler's contract says that the state after the
//! call and the returned response (or error) are exactly what the
//! transition function gives. On every error path the state is the old
//! one: a failed invocation commits nothing.

use vstd::prelude::*;
use vstd::string::StringExecFns;

use crate::error::{ContractError, ErrorView};
use crate::route::{
    Chain, ChainState, ChainView, Directive, DirectiveView, FactorView, TokenView, toggled_state,
};
use crate::route::Token;
use crate::msg::{
    ExecuteMsg, GetFeeResponse, GetTargetChainFeeResponse, GetTokenResponse, InstantiateMsg,
    QueryMsg, QueryResponse,
};
use crate::state::{
    canonical_id, normalize_token_id, GenerateTicketReq, GenerateTicketReqView, IcpChainKeyToken,
    State, StateView, TxAction,
};
use crate::store::{
    clone_keys, clone_table, lemma_assoc_congruence, lemma_assoc_exists, lemma_assoc_get,
    AssocTable, ExactClone, KeySet,
};
use crate::types::{
    clone_opt_string_vec, CoinView, Dispatch, DispatchView, Event, EventView,
    HostEnv, HostEnvView, HostOp, HostOpView, MessageInfo, MessageInfoView, MintTokenPayload,
    MintTokenPayloadView, PendingOp, PendingOpView, RedeemAllBTC, RedeemAllBTCView, Response,
    ResponseView,
};

verus! {

/// Image of a handler result: responses and errors by their views.
pub open spec fn result_view(r: Result<Response, ContractError>) -> Result<
    ResponseView,
    ErrorView,
> {
    match r {
        Ok(resp) => Ok(resp@),
        Err(e) => Err(e@),
    }
}

/// Image of a fee computation result.
pub open spec fn fee_result_view(r: Result<u128, ContractError>) -> Result<u128, ErrorView> {
    match r {
        Ok(v) => Ok(v),
        Err(e) => Err(e@),
    }
}

/// Image of a plain check result.
pub open spec fn unit_result_view(r: Result<(), ContractError>) -> Result<(), ErrorView> {
    match r {
        Ok(v) => Ok(v),
        Err(e) => Err(e@),
    }
}

/// Image of a fee validation result: fee token and fee amount.
pub open spec fn fee_pair_result_view(r: Result<(String, u128), ContractError>) -> Result<
    (Seq<char>, u128),
    ErrorView,
> {
    match r {
        Ok(p) => Ok((p.0@, p.1)),
        Err(e) => Err(e@),
    }
}

/// The denomination the host's token factory gives a token this contract
/// created.
pub open spec fn spec_token_denom(contract: Seq<char>, token_id: Seq<char>) -> Seq<char> {
    "factory/"@ + contract + "/"@ + token_id
}

/// Builds the factory denomination of a token of this contract.
pub fn token_denom(address: String, token_id: String) -> (r: String)
    ensures
        r@ == spec_token_denom(address@, token_id@),
{
    let mut out = String::from_str("factory/");
    out.append(address.as_str());
    out.append("/");
    out.append(token_id.as_str());
    proof {
        assert(out@ =~= spec_token_denom(address@, token_id@));
    }
    out
}

/// The burn request of an outbound intent: the named holder's tokens of
/// the factory denomination are destroyed.
pub fn build_burn_msg(denom: String, amount: u128, source: String) -> (r: HostOp)
    ensures
        r@ == (HostOpView::Burn { denom: denom@, amount, source: source@ }),
{
    HostOp::Burn { denom, amount, source }
}

/// Whether the sender may act for governance: the configured route or
/// the admin.
pub open spec fn is_governance(s: StateView, sender: Seq<char>) -> bool {
    sender == s.route || sender == s.admin
}

/// The required fee for a destination chain: the product of the global
/// fee-token factor and the chain's factor; unavailable while either
/// factor is unset, and refused when the product exceeds the amount type.
pub open spec fn spec_calculate_fee(s: StateView, target_chain: Seq<char>) -> Result<
    u128,
    ErrorView,
> {
    match s.fee_token_factor {
        None => Err(ErrorView::FeeHasNotSet),
        Some(f) => {
            if !s.target_chain_factor.contains_key(target_chain) {
                Err(ErrorView::FeeHasNotSet)
            } else if f * s.target_chain_factor[target_chain] > u128::MAX {
                Err(ErrorView::CustomError("fee computation overflow"@))
            } else {
                Ok((f * s.target_chain_factor[target_chain]) as u128)
            }
        }
    }
}

/// Computes the required fee for a destination chain.
pub fn calculate_fee(state: &State, target_chain: &String) -> (r: Result<u128, ContractError>)
    requires
        state.wf(),
    ensures
        fee_result_view(r) == spec_calculate_fee(state@, target_chain@),
{
    let f = match state.fee_token_factor {
        Some(f) => f,
        None => {
            return Err(ContractError::FeeHasNotSet);
        }
    };
    let cf = match state.target_chain_factor.get(target_chain) {
        Some(c) => *c,
        None => {
            return Err(ContractError::FeeHasNotSet);
        }
    };
    match f.checked_mul(cf) {
        Some(fee) => Ok(fee),
        None => Err(ContractError::CustomError(String::from_str("fee computation overflow"))),
    }
}

/// Sum of the attached amounts of one denomination.
pub open spec fn spec_attached_total(funds: Seq<CoinView>, denom: Seq<char>) -> int
    decreases funds.len(),
{
    if funds.len() == 0 {
        0
    } else {
        spec_attached_total(funds.drop_last(), denom) + if funds.last().denom == denom {
            funds.last().amount as int
        } else {
            0
        }
    }
}

/// The sum never falls below any of its prefixes.
proof fn lemma_attached_prefix(funds: Seq<CoinView>, denom: Seq<char>, i: int)
    requires
        0 <= i <= funds.len(),
    ensures
        spec_attached_total(funds.subrange(0, i), denom) <= spec_attached_total(funds, denom),
    decreases funds.len() - i,
{
    if i == funds.len() {
        assert(funds.subrange(0, i) =~= funds);
    } else {
        assert(funds.subrange(0, i + 1).drop_last() =~= funds.subrange(0, i));
        assert(funds.subrange(0, i + 1).last() == funds[i]);
        lemma_attached_prefix(funds, denom, i + 1);
    }
}

/// What a caller must attach so the fee sum cannot exceed the amount
/// type: a machine limit, not a policy.
pub open spec fn fee_funds_fit(s: StateView, info: MessageInfoView) -> bool {
    s.fee_token matches Some(ft) ==> spec_attached_total(info.funds, ft) <= u128::MAX
}

/// Validates the attached payment against the required fee of the
/// destination chain: the attached total of the fee token must equal the
/// fee exactly. Returns the fee token and the fee amount.
pub open spec fn spec_check_fee(
    s: StateView,
    info: MessageInfoView,
    target_chain: Seq<char>,
) -> Result<(Seq<char>, u128), ErrorView> {
    match s.fee_token {
        None => Err(ErrorView::FeeHasNotSet),
        Some(fee_token) => match spec_calculate_fee(s, target_chain) {
            Err(e) => Err(e),
            Ok(fee) => {
                if spec_attached_total(info.funds, fee_token) == fee {
                    Ok((fee_token, fee))
                } else {
                    Err(
                        ErrorView::IncorrectFee(
                            fee,
                            spec_attached_total(info.funds, fee_token) as u128,
                            info.funds,
                        ),
                    )
                }
            }
        },
    }
}

/// Checks the attached payment; must run before any state-mutating
/// dispatch of a fee-bearing operation.
pub fn check_fee(state: &State, info: &MessageInfo, target_chain: &String) -> (r: Result<
    (String, u128),
    ContractError,
>)
    requires
        state.wf(),
        fee_funds_fit(state@, info@),
    ensures
        fee_pair_result_view(r) == spec_check_fee(state@, info@, target_chain@),
{
    let fee_token = match &state.fee_token {
        Some(t) => t,
        None => {
            return Err(ContractError::FeeHasNotSet);
        }
    };
    let fee = match calculate_fee(state, target_chain) {
        Ok(fee) => fee,
        Err(e) => {
            return Err(e);
        }
    };
    let n = info.funds.len();
    let mut attached: u128 = 0;
    let mut i: usize = 0;
    while i < n
        invariant
            i <= n,
            n == info.funds@.len(),
            state.wf(),
            fee_funds_fit(state@, info@),
            state@.fee_token == Some(fee_token@),
            attached == spec_attached_total(info@.funds.subrange(0, i as int), fee_token@),
        decreases n - i,
    {
        proof {
            assert(info@.funds.subrange(0, i + 1 as int).drop_last() =~= info@.funds.subrange(
                0,
                i as int,
            ));
            assert(info@.funds.subrange(0, i + 1 as int).last() == info@.funds[i as int]);
            lemma_attached_prefix(info@.funds, fee_token@, i + 1 as int);
        }
        if info.funds[i].denom.eq(fee_token) {
            attached = attached + info.funds[i].amount;
        }
        i = i + 1;
    }
    proof {
        assert(info@.funds.subrange(0, n as int) =~= info@.funds);
    }
    if attached == fee {
        Ok((fee_token.clone(), fee))
    } else {
        Err(ContractError::IncorrectFee(fee, attached, clone_coins(&info.funds)))
    }
}

/// Copies a funds list for an error report.
fn clone_coins(funds: &Vec<crate::types::Coin>) -> (r: Vec<crate::types::Coin>)
    ensures
        r@.map_values(|c: crate::types::Coin| c@) == funds@.map_values(
            |c: crate::types::Coin| c@,
        ),
{
    let n = funds.len();
    let mut out: Vec<crate::types::Coin> = Vec::new();
    let mut i: usize = 0;
    while i < n
        invariant
            i <= n,
            n == funds@.len(),
            out@.len() == i,
            forall|j: int| 0 <= j < i ==> out@[j]@ == funds@[j]@,
        decreases n - i,
    {
        out.push(
            crate::types::Coin { denom: funds[i].denom.clone(), amount: funds[i].amount },
        );
        i = i + 1;
    }
    proof {
        assert(out@.map_values(|c: crate::types::Coin| c@) =~= funds@.map_values(
            |c: crate::types::Coin| c@,
        ));
    }
    out
}

/// Validates an amount against the configured per-token, per-chain
/// redeem minimum (zero when unset).
pub open spec fn spec_check_min_amount(
    s: StateView,
    token_id: Seq<char>,
    target_chain: Seq<char>,
    amount: u128,
) -> Result<(), ErrorView> {
    let min: u128 = if s.target_chain_redeem_min_amount.contains_key((token_id, target_chain)) {
        s.target_chain_redeem_min_amount[(token_id, target_chain)]
    } else {
        0
    };
    if amount < min {
        Err(ErrorView::RedeemAmountLessThanMinAmount(min, amount))
    } else {
        Ok(())
    }
}

/// Checks the configured redeem minimum.
pub fn check_min_amount(
    state: &State,
    token_id: &String,
    target_chain: &String,
    amount: u128,
) -> (r: Result<(), ContractError>)
    requires
        state.wf(),
    ensures
        unit_result_view(r) == spec_check_min_amount(state@, token_id@, target_chain@, amount),
{
    let key = (token_id.clone(), target_chain.clone());
    let min = match state.target_chain_redeem_min_amount.get(&key) {
        Some(m) => *m,
        None => 0,
    };
    if amount < min {
        Err(ContractError::RedeemAmountLessThanMinAmount(min, amount))
    } else {
        Ok(())
    }
}

/// Validates that the destination chain is a registered, active
/// counterparty.
pub open spec fn spec_check_target_chain(s: StateView, target_chain: Seq<char>) -> Result<
    (),
    ErrorView,
> {
    if !s.counterparties.contains_key(target_chain) {
        Err(ErrorView::TargetChainNotFound)
    } else if s.counterparties[target_chain].chain_state != crate::route::ChainState::Active {
        Err(ErrorView::TargetChainDeactive)
    } else {
        Ok(())
    }
}

/// Checks the destination chain.
pub fn check_target_chain(state: &State, target_chain: &String) -> (r: Result<(), ContractError>)
    requires
        state.wf(),
    ensures
        unit_result_view(r) == spec_check_target_chain(state@, target_chain@),
{
    match state.counterparties.get(target_chain) {
        None => Err(ContractError::TargetChainNotFound),
        Some(chain) => {
            if chain.chain_state == crate::route::ChainState::Active {
                Ok(())
            } else {
                Err(ContractError::TargetChainDeactive)
            }
        }
    }
}

/// The token record as the registry stores it: keyed and named by the
/// canonical identifier.
pub open spec fn spec_stored_token(t: TokenView) -> TokenView {
    TokenView { token_id: canonical_id(t.token_id), ..t }
}

/// Registers or overwrites a token: the record goes in under its
/// canonical identifier, and a rewritten identifier is remembered so
/// outbound records can restore the original.
pub open spec fn spec_register_token(s: StateView, t: TokenView) -> StateView {
    let canon = canonical_id(t.token_id);
    StateView {
        tokens: s.tokens.insert(canon, spec_stored_token(t)),
        runes_replaced_id_map: if canon == t.token_id {
            s.runes_replaced_id_map
        } else {
            s.runes_replaced_id_map.insert(canon, t.token_id)
        },
        ..s
    }
}

/// The set-metadata request that accompanies a token registration.
pub open spec fn spec_token_metadata_op(contract: Seq<char>, stored: TokenView) -> HostOpView {
    HostOpView::SetDenomMetadata {
        base_denom: spec_token_denom(contract, stored.token_id),
        name: stored.name,
        symbol: stored.symbol,
        decimals: stored.decimals,
        icon: match stored.icon {
            Some(i) => i,
            None => Seq::empty(),
        },
    }
}

/// A fee configuration change.
pub open spec fn spec_update_fee(s: StateView, f: FactorView) -> StateView {
    match f {
        FactorView::UpdateFeeTokenFactor(ff) => StateView {
            fee_token: Some(ff.fee_token),
            fee_token_factor: Some(ff.fee_token_factor),
            ..s
        },
        FactorView::UpdateTargetChainFactor(cf) => StateView {
            target_chain_factor: s.target_chain_factor.insert(
                cf.target_chain_id,
                cf.target_chain_factor,
            ),
            ..s
        },
    }
}

/// Merges a counterparty record; naming this chain itself also adopts
/// the record's state as the engine's own.
pub open spec fn spec_upsert_chain(s: StateView, c: ChainView) -> StateView {
    let s1 = if c.chain_id == s.chain_id {
        StateView { chain_state: c.chain_state, ..s }
    } else {
        s
    };
    StateView { counterparties: s1.counterparties.insert(c.chain_id, c), ..s1 }
}

/// Flips this chain's own state, or a registered counterparty's.
pub open spec fn spec_toggle_chain(
    s: StateView,
    chain_id: Seq<char>,
    action: crate::route::ToggleAction,
) -> Result<StateView, ErrorView> {
    if chain_id == s.chain_id {
        Ok(StateView { chain_state: toggled_state(action), ..s })
    } else if !s.counterparties.contains_key(chain_id) {
        Err(ErrorView::ChainNotFound)
    } else {
        Ok(
            StateView {
                counterparties: s.counterparties.insert(
                    chain_id,
                    ChainView { chain_state: toggled_state(action), ..s.counterparties[chain_id] },
                ),
                ..s
            },
        )
    }
}

/// One directive applied to the state, with the operations it dispatches.
pub open spec fn spec_apply_directive(
    s: StateView,
    env: HostEnvView,
    d: DirectiveView,
) -> Result<(StateView, Seq<DispatchView>), ErrorView> {
    match d {
        DirectiveView::AddToken(t) => {
            if s.tokens.contains_key(canonical_id(t.token_id)) {
                Err(ErrorView::TokenAleardyExist)
            } else {
                Ok(
                    (
                        spec_register_token(s, t),
                        seq![
                            DispatchView {
                                op: HostOpView::CreateDenom { subdenom: canonical_id(t.token_id) },
                                callback: None,
                            },
                            DispatchView {
                                op: spec_token_metadata_op(env.contract, spec_stored_token(t)),
                                callback: None,
                            },
                        ],
                    ),
                )
            }
        }
        DirectiveView::UpdateToken(t) => {
            if !s.tokens.contains_key(canonical_id(t.token_id)) {
                Err(ErrorView::TokenNotFound)
            } else {
                Ok(
                    (
                        spec_register_token(s, t),
                        seq![
                            DispatchView {
                                op: spec_token_metadata_op(env.contract, spec_stored_token(t)),
                                callback: None,
                            },
                        ],
                    ),
                )
            }
        }
        DirectiveView::UpdateFee(f) => Ok((spec_update_fee(s, f), Seq::empty())),
        DirectiveView::AddChain(c) => Ok((spec_upsert_chain(s, c), Seq::empty())),
        DirectiveView::UpdateChain(c) => Ok((spec_upsert_chain(s, c), Seq::empty())),
        DirectiveView::ToggleChainState(ts) => match spec_toggle_chain(s, ts.chain_id, ts.action) {
            Ok(s1) => Ok((s1, Seq::empty())),
            Err(e) => Err(e),
        },
    }
}

/// The whole directive step: authorization, replay guard, application,
/// and the atomic setting of the replay marker.
pub open spec fn spec_exec_directive(
    s: StateView,
    env: HostEnvView,
    sender: Seq<char>,
    seq: u64,
    d: DirectiveView,
) -> (StateView, Result<ResponseView, ErrorView>) {
    if !is_governance(s, sender) {
        (s, Err(ErrorView::Unauthorized))
    } else if s.handled_directives.contains(seq) {
        (s, Err(ErrorView::DirectiveAlreadyHandled))
    } else {
        match spec_apply_directive(s, env, d) {
            Err(e) => (s, Err(e)),
            Ok((s1, msgs)) => (
                StateView { handled_directives: s1.handled_directives.insert(seq), ..s1 },
                Ok(
                    ResponseView {
                        messages: msgs,
                        events: seq![EventView::DirectiveExecuted { seq }],
                    },
                ),
            ),
        }
    }
}

/// Applies a governance directive exactly once.
pub fn exec_directive(
    state: &mut State,
    env: &HostEnv,
    info: &MessageInfo,
    seq: u64,
    directive: Directive,
) -> (r: Result<Response, ContractError>)
    requires
        old(state).wf(),
    ensures
        final(state).wf(),
        final(state)@ == spec_exec_directive(old(state)@, env@, info@.sender, seq, directive@).0,
        result_view(r) == spec_exec_directive(old(state)@, env@, info@.sender, seq, directive@).1,
{
    if !(info.sender.eq(&state.route) || info.sender.eq(&state.admin)) {
        return Err(ContractError::Unauthorized);
    }
    if state.handled_directives.contains(&seq) {
        return Err(ContractError::DirectiveAlreadyHandled);
    }
    let mut response = Response::new();
    match directive {
        Directive::AddToken(token) => {
            let canon = normalize_token_id(&token.token_id);
            if state.tokens.contains_key(&canon) {
                return Err(ContractError::TokenAleardyExist);
            }
            let create = Dispatch {
                op: HostOp::CreateDenom { subdenom: canon.clone() },
                callback: None,
            };
            let base = token_denom(env.contract.clone(), canon.clone());
            let icon_text = match &token.icon {
                Some(s) => s.clone(),
                None => String::new(),
            };
            let meta = Dispatch {
                op: HostOp::SetDenomMetadata {
                    base_denom: base,
                    name: token.name.clone(),
                    symbol: token.symbol.clone(),
                    decimals: token.decimals,
                    icon: icon_text,
                },
                callback: None,
            };
            if !canon.eq(&token.token_id) {
                state.runes_replaced_id_map.insert(canon.clone(), token.token_id);
            }
            let stored = Token {
                token_id: canon.clone(),
                name: token.name,
                symbol: token.symbol,
                decimals: token.decimals,
                icon: token.icon,
            };
            state.tokens.insert(canon, stored);
            response = response.add_message(create).add_message(meta);
        }
        Directive::UpdateToken(token) => {
            let canon = normalize_token_id(&token.token_id);
            if !state.tokens.contains_key(&canon) {
                return Err(ContractError::TokenNotFound);
            }
            let base = token_denom(env.contract.clone(), canon.clone());
            let icon_text = match &token.icon {
                Some(s) => s.clone(),
                None => String::new(),
            };
            let meta = Dispatch {
                op: HostOp::SetDenomMetadata {
                    base_denom: base,
                    name: token.name.clone(),
                    symbol: token.symbol.clone(),
                    decimals: token.decimals,
                    icon: icon_text,
                },
                callback: None,
            };
            if !canon.eq(&token.token_id) {
                state.runes_replaced_id_map.insert(canon.clone(), token.token_id);
            }
            let stored = Token {
                token_id: canon.clone(),
                name: token.name,
                symbol: token.symbol,
                decimals: token.decimals,
                icon: token.icon,
            };
            state.tokens.insert(canon, stored);
            response = response.add_message(meta);
        }
        Directive::UpdateFee(factor) => {
            match factor {
                crate::route::Factor::UpdateFeeTokenFactor(ff) => {
                    state.fee_token = Some(ff.fee_token);
                    state.fee_token_factor = Some(ff.fee_token_factor);
                }
                crate::route::Factor::UpdateTargetChainFactor(cf) => {
                    state.target_chain_factor.insert(cf.target_chain_id, cf.target_chain_factor);
                }
            }
        }
        Directive::AddChain(chain) => {
            if chain.chain_id.eq(&state.chain_id) {
                state.chain_state = chain.chain_state;
            }
            let key = chain.chain_id.clone();
            state.counterparties.insert(key, chain);
        }
        Directive::UpdateChain(chain) => {
            if chain.chain_id.eq(&state.chain_id) {
                state.chain_state = chain.chain_state;
            }
            let key = chain.chain_id.clone();
            state.counterparties.insert(key, chain);
        }
        Directive::ToggleChainState(toggle) => {
            if toggle.chain_id.eq(&state.chain_id) {
                state.chain_state = ChainState::from(toggle.action);
            } else {
                let updated = match state.counterparties.get(&toggle.chain_id) {
                    None => {
                        return Err(ContractError::ChainNotFound);
                    }
                    Some(chain) => Chain {
                        chain_id: chain.chain_id.clone(),
                        canister_id: chain.canister_id.clone(),
                        chain_type: chain.chain_type,
                        chain_state: ChainState::from(toggle.action),
                        contract_address: chain.contract_address.exact_clone(),
                        counterparties: clone_opt_string_vec(&chain.counterparties),
                        fee_token: chain.fee_token.exact_clone(),
                    },
                };
                proof {
                    assert(updated@ =~= ChainView {
                        chain_state: toggled_state(toggle.action),
                        ..old(state)@.counterparties[toggle.chain_id@]
                    });
                }
                state.counterparties.insert(toggle.chain_id, updated);
            }
        }
    }
    state.handled_directives.insert(seq);
    let out = response.add_event(Event::DirectiveExecuted { seq });
    proof {
        let step = spec_exec_directive(old(state)@, env@, info@.sender, seq, directive@);
        assert(state@ =~~= step.0);
        assert(step.1 is Ok);
        assert(out@ =~~= step.1->Ok_0);
        assert(result_view(Ok::<Response, ContractError>(out)) == step.1);
        assert forall|k: Seq<char>| #[trigger] state@.tokens.contains_key(k)
            implies state@.tokens[k].token_id == k by {
            if old(state)@.tokens.contains_key(k) {
                assert(old(state)@.tokens[k].token_id == k);
            }
        }
    }
    Ok(out)
}

/// Error text of a transmute request outside the whitelisted pair.
pub open spec fn transmute_refused_text() -> Seq<char> {
    "Only Support transmuter ckbtc to allBTC"@
}

/// Authorizes an inbound mint ticket exactly once and dispatches the
/// mint. When a transmute is requested the pair must be the whitelisted
/// one, and the mint goes to this contract so the swapped asset can be
/// forwarded afterwards; otherwise it goes straight to the receiver.
pub open spec fn spec_privilege_mint_token(
    s: StateView,
    env: HostEnvView,
    sender: Seq<char>,
    ticket_id: Seq<char>,
    token_id: Seq<char>,
    receiver: Seq<char>,
    amount: u128,
    transmuter: Option<Seq<char>>,
) -> (StateView, Result<ResponseView, ErrorView>) {
    let canon = canonical_id(token_id);
    if !is_governance(s, sender) {
        (s, Err(ErrorView::Unauthorized))
    } else if s.handled_tickets.contains(ticket_id) {
        (s, Err(ErrorView::TicketAlreadyHandled))
    } else if !s.tokens.contains_key(canon) {
        (s, Err(ErrorView::TokenNotFound))
    } else if transmuter matches Some(t) && !(canon == s.ckbtc_token_id && t
        == s.allbtc_token_denom) {
        (s, Err(ErrorView::CustomError(transmute_refused_text())))
    } else {
        let payload = MintTokenPayloadView {
            ticket_id,
            token_id: canon,
            receiver,
            amount,
            transmuter,
        };
        let recipient = if transmuter is Some {
            env.contract
        } else {
            receiver
        };
        (
            StateView { handled_tickets: s.handled_tickets.insert(ticket_id), ..s },
            Ok(
                ResponseView {
                    messages: seq![
                        DispatchView {
                            op: HostOpView::Mint {
                                denom: spec_token_denom(env.contract, canon),
                                amount,
                                recipient,
                            },
                            callback: Some(PendingOpView::MintToken(payload)),
                        },
                    ],
                    events: Seq::empty(),
                },
            ),
        )
    }
}

/// Handles an inbound mint ticket.
pub fn privilege_mint_token(
    state: &mut State,
    env: &HostEnv,
    info: &MessageInfo,
    ticket_id: String,
    token_id: String,
    receiver: String,
    amount: u128,
    transmuter: Option<String>,
) -> (r: Result<Response, ContractError>)
    requires
        old(state).wf(),
    ensures
        final(state).wf(),
        final(state)@ == spec_privilege_mint_token(
            old(state)@,
            env@,
            info@.sender,
            ticket_id@,
            token_id@,
            receiver@,
            amount,
            transmuter.deep_view(),
        ).0,
        result_view(r) == spec_privilege_mint_token(
            old(state)@,
            env@,
            info@.sender,
            ticket_id@,
            token_id@,
            receiver@,
            amount,
            transmuter.deep_view(),
        ).1,
{
    if !(info.sender.eq(&state.route) || info.sender.eq(&state.admin)) {
        return Err(ContractError::Unauthorized);
    }
    if state.handled_tickets.contains(&ticket_id) {
        return Err(ContractError::TicketAlreadyHandled);
    }
    let canon = normalize_token_id(&token_id);
    if !state.tokens.contains_key(&canon) {
        return Err(ContractError::TokenNotFound);
    }
    if let Some(t) = &transmuter {
        if !(canon.eq(&state.ckbtc_token_id) && t.eq(&state.allbtc_token_denom)) {
            return Err(
                ContractError::CustomError(
                    String::from_str("Only Support transmuter ckbtc to allBTC"),
                ),
            );
        }
    }
    state.handled_tickets.insert(ticket_id.clone());
    let recipient = if transmuter.is_some() {
        env.contract.clone()
    } else {
        receiver.clone()
    };
    let denom = token_denom(env.contract.clone(), canon.clone());
    let payload = MintTokenPayload { ticket_id, token_id: canon, receiver, amount, transmuter };
    let out = Response::new().add_message(
        Dispatch {
            op: HostOp::Mint { denom, amount, recipient },
            callback: Some(PendingOp::MintToken(payload)),
        },
    );
    proof {
        let step = spec_privilege_mint_token(
            old(state)@,
            env@,
            info@.sender,
            ticket_id@,
            token_id@,
            receiver@,
            amount,
            transmuter.deep_view(),
        );
        assert(state@ =~~= step.0);
        assert(step.1 is Ok);
        assert(out@ =~~= step.1->Ok_0);
        assert(result_view(Ok::<Response, ContractError>(out)) == step.1);
    }
    Ok(out)
}

/// The outbound ticket record a redeem or generate-ticket intent
/// persists through its continuation: it reports the original external
/// token identifier and the fee that was taken.
pub open spec fn spec_outbound_req(
    s: StateView,
    env: HostEnvView,
    sender: Seq<char>,
    receiver: Seq<char>,
    canon: Seq<char>,
    amount: u128,
    target_chain: Seq<char>,
    action: TxAction,
    memo: Option<Seq<char>>,
    fee: (Seq<char>, u128),
) -> GenerateTicketReqView {
    GenerateTicketReqView {
        seq: s.generate_ticket_sequence,
        target_chain_id: target_chain,
        sender,
        receiver,
        token_id: State::spec_restored_id(s, canon),
        amount,
        action,
        timestamp: env.time_nanos,
        block_height: env.block_height,
        memo,
        fee_token: fee.0,
        fee_amount: fee.1,
    }
}

/// An outbound transfer intent: checks, then draw the next sequence
/// number and dispatch the burn with the intent as continuation.
pub open spec fn spec_redeem_token(
    s: StateView,
    env: HostEnvView,
    info: MessageInfoView,
    token_id: Seq<char>,
    receiver: Seq<char>,
    amount: u128,
    target_chain: Seq<char>,
) -> (StateView, Result<ResponseView, ErrorView>) {
    let canon = canonical_id(token_id);
    if !s.tokens.contains_key(canon) {
        (s, Err(ErrorView::TokenNotFound))
    } else {
        match spec_check_target_chain(s, target_chain) {
            Err(e) => (s, Err(e)),
            Ok(_) => match spec_check_fee(s, info, target_chain) {
                Err(e) => (s, Err(e)),
                Ok(fee) => match spec_check_min_amount(s, canon, target_chain, amount) {
                    Err(e) => (s, Err(e)),
                    Ok(_) => {
                        let req = spec_outbound_req(
                            s,
                            env,
                            info.sender,
                            receiver,
                            canon,
                            amount,
                            target_chain,
                            TxAction::RedeemIcpChainKeyAssets(IcpChainKeyToken::CKBTC),
                            None,
                            fee,
                        );
                        (
                            StateView {
                                generate_ticket_sequence: (s.generate_ticket_sequence + 1) as u64,
                                ..s
                            },
                            Ok(
                                ResponseView {
                                    messages: seq![
                                        DispatchView {
                                            op: HostOpView::Burn {
                                                denom: spec_token_denom(env.contract, canon),
                                                amount,
                                                source: info.sender,
                                            },
                                            callback: Some(PendingOpView::Redeem(req)),
                                        },
                                    ],
                                    events: Seq::empty(),
                                },
                            ),
                        )
                    }
                },
            },
        }
    }
}

/// Redeems a bridged token back to a counterparty chain.
pub fn redeem_token(
    state: &mut State,
    env: &HostEnv,
    info: &MessageInfo,
    token_id: String,
    receiver: String,
    amount: u128,
    target_chain: String,
) -> (r: Result<Response, ContractError>)
    requires
        old(state).wf(),
        fee_funds_fit(old(state)@, info@),
        old(state)@.generate_ticket_sequence < u64::MAX,
    ensures
        final(state).wf(),
        final(state)@ == spec_redeem_token(
            old(state)@,
            env@,
            info@,
            token_id@,
            receiver@,
            amount,
            target_chain@,
        ).0,
        result_view(r) == spec_redeem_token(
            old(state)@,
            env@,
            info@,
            token_id@,
            receiver@,
            amount,
            target_chain@,
        ).1,
{
    let canon = normalize_token_id(&token_id);
    if !state.tokens.contains_key(&canon) {
        return Err(ContractError::TokenNotFound);
    }
    match check_target_chain(state, &target_chain) {
        Ok(_) => (),
        Err(e) => {
            return Err(e);
        }
    }
    let (fee_token, fee_amount) = match check_fee(state, info, &target_chain) {
        Ok(p) => p,
        Err(e) => {
            return Err(e);
        }
    };
    match check_min_amount(state, &canon, &target_chain, amount) {
        Ok(_) => (),
        Err(e) => {
            return Err(e);
        }
    }
    let current_seq = state.generate_ticket_sequence;
    state.generate_ticket_sequence = current_seq + 1;
    let restored = state.replace_token_id_if_runes(&canon);
    let req = GenerateTicketReq {
        seq: current_seq,
        target_chain_id: target_chain,
        sender: info.sender.clone(),
        receiver,
        token_id: restored,
        amount,
        action: TxAction::RedeemIcpChainKeyAssets(IcpChainKeyToken::CKBTC),
        timestamp: env.time_nanos,
        block_height: env.block_height,
        memo: None,
        fee_token,
        fee_amount,
    };
    let denom = token_denom(env.contract.clone(), canon);
    let out = Response::new().add_message(
        Dispatch {
            op: build_burn_msg(denom, amount, info.sender.clone()),
            callback: Some(PendingOp::Redeem(req)),
        },
    );
    proof {
        let step = spec_redeem_token(
            old(state)@,
            env@,
            info@,
            token_id@,
            receiver@,
            amount,
            target_chain@,
        );
        assert(state@ =~~= step.0);
        assert(step.1 is Ok);
        assert(out@ =~~= step.1->Ok_0);
        assert(result_view(Ok::<Response, ContractError>(out)) == step.1);
    }
    Ok(out)
}

/// Like a redeem, with caller-chosen sender, action and memo recorded
/// in the outbound ticket.
pub open spec fn spec_generate_ticket(
    s: StateView,
    env: HostEnvView,
    info: MessageInfoView,
    token_id: Seq<char>,
    sender: Seq<char>,
    receiver: Seq<char>,
    amount: u128,
    target_chain: Seq<char>,
    action: TxAction,
    memo: Option<Seq<char>>,
) -> (StateView, Result<ResponseView, ErrorView>) {
    let canon = canonical_id(token_id);
    if !s.tokens.contains_key(canon) {
        (s, Err(ErrorView::TokenNotFound))
    } else {
        match spec_check_target_chain(s, target_chain) {
            Err(e) => (s, Err(e)),
            Ok(_) => match spec_check_fee(s, info, target_chain) {
                Err(e) => (s, Err(e)),
                Ok(fee) => match spec_check_min_amount(s, canon, target_chain, amount) {
                    Err(e) => (s, Err(e)),
                    Ok(_) => {
                        let req = spec_outbound_req(
                            s,
                            env,
                            sender,
                            receiver,
                            canon,
                            amount,
                            target_chain,
                            action,
                            memo,
                            fee,
                        );
                        (
                            StateView {
                                generate_ticket_sequence: (s.generate_ticket_sequence + 1) as u64,
                                ..s
                            },
                            Ok(
                                ResponseView {
                                    messages: seq![
                                        DispatchView {
                                            op: HostOpView::Burn {
                                                denom: spec_token_denom(env.contract, canon),
                                                amount,
                                                source: info.sender,
                                            },
                                            callback: Some(PendingOpView::GenerateTicket(req)),
                                        },
                                    ],
                                    events: Seq::empty(),
                                },
                            ),
                        )
                    }
                },
            },
        }
    }
}

/// Generates an outbound ticket for a burn of a bridged token.
pub fn generate_ticket(
    state: &mut State,
    env: &HostEnv,
    info: &MessageInfo,
    token_id: String,
    sender: String,
    receiver: String,
    amount: u128,
    target_chain: String,
    action: TxAction,
    memo: Option<String>,
) -> (r: Result<Response, ContractError>)
    requires
        old(state).wf(),
        fee_funds_fit(old(state)@, info@),
        old(state)@.generate_ticket_sequence < u64::MAX,
    ensures
        final(state).wf(),
        final(state)@ == spec_generate_ticket(
            old(state)@,
            env@,
            info@,
            token_id@,
            sender@,
            receiver@,
            amount,
            target_chain@,
            action,
            memo.deep_view(),
        ).0,
        result_view(r) == spec_generate_ticket(
            old(state)@,
            env@,
            info@,
            token_id@,
            sender@,
            receiver@,
            amount,
            target_chain@,
            action,
            memo.deep_view(),
        ).1,
{
    let canon = normalize_token_id(&token_id);
    if !state.tokens.contains_key(&canon) {
        return Err(ContractError::TokenNotFound);
    }
    match check_target_chain(state, &target_chain) {
        Ok(_) => (),
        Err(e) => {
            return Err(e);
        }
    }
    let (fee_token, fee_amount) = match check_fee(state, info, &target_chain) {
        Ok(p) => p,
        Err(e) => {
            return Err(e);
        }
    };
    match check_min_amount(state, &canon, &target_chain, amount) {
        Ok(_) => (),
        Err(e) => {
            return Err(e);
        }
    }
    let current_seq = state.generate_ticket_sequence;
    state.generate_ticket_sequence = current_seq + 1;
    let restored = state.replace_token_id_if_runes(&canon);
    let req = GenerateTicketReq {
        seq: current_seq,
        target_chain_id: target_chain,
        sender,
        receiver,
        token_id: restored,
        amount,
        action,
        timestamp: env.time_nanos,
        block_height: env.block_height,
        memo,
        fee_token,
        fee_amount,
    };
    let denom = token_denom(env.contract.clone(), canon);
    let out = Response::new().add_message(
        Dispatch {
            op: build_burn_msg(denom, amount, info.sender.clone()),
            callback: Some(PendingOp::GenerateTicket(req)),
        },
    );
    proof {
        let step = spec_generate_ticket(
            old(state)@,
            env@,
            info@,
            token_id@,
            sender@,
            receiver@,
            amount,
            target_chain@,
            action,
            memo.deep_view(),
        );
        assert(state@ =~~= step.0);
        assert(step.1 is Ok);
        assert(out@ =~~= step.1->Ok_0);
        assert(result_view(Ok::<Response, ContractError>(out)) == step.1);
    }
    Ok(out)
}

/// Redeeming the pooled asset: validate chain and fee, then swap it
/// back into the bridged token; the burn follows in the continuation.
pub open spec fn spec_redeem_all_btc(
    s: StateView,
    env: HostEnvView,
    info: MessageInfoView,
    receiver: Seq<char>,
    amount: u128,
    target_chain: Seq<char>,
) -> (StateView, Result<ResponseView, ErrorView>) {
    match spec_check_target_chain(s, target_chain) {
        Err(e) => (s, Err(e)),
        Ok(_) => match spec_check_fee(s, info, target_chain) {
            Err(e) => (s, Err(e)),
            Ok(fee) => {
                let payload = RedeemAllBTCView {
                    sender: info.sender,
                    receiver,
                    amount,
                    target_chain,
                    fee_token: fee.0,
                    fee_amount: fee.1,
                };
                (
                    s,
                    Ok(
                        ResponseView {
                            messages: seq![
                                DispatchView {
                                    op: HostOpView::Swap {
                                        pool_id: s.allbtc_swap_pool_id,
                                        in_denom: s.allbtc_token_denom,
                                        in_amount: amount,
                                        out_denom: spec_token_denom(
                                            env.contract,
                                            s.ckbtc_token_id,
                                        ),
                                        min_out_amount: amount,
                                    },
                                    callback: Some(PendingOpView::SwapAllbtcToCkbtc(payload)),
                                },
                            ],
                            events: Seq::empty(),
                        },
                    ),
                )
            }
        },
    }
}

/// Redeems the pooled asset via a swap back into the bridged token.
pub fn redeem_all_btc(
    state: &mut State,
    env: &HostEnv,
    info: &MessageInfo,
    receiver: String,
    amount: u128,
    target_chain: String,
) -> (r: Result<Response, ContractError>)
    requires
        old(state).wf(),
        fee_funds_fit(old(state)@, info@),
    ensures
        final(state).wf(),
        final(state)@ == spec_redeem_all_btc(
            old(state)@,
            env@,
            info@,
            receiver@,
            amount,
            target_chain@,
        ).0,
        result_view(r) == spec_redeem_all_btc(
            old(state)@,
            env@,
            info@,
            receiver@,
            amount,
            target_chain@,
        ).1,
{
    match check_target_chain(state, &target_chain) {
        Ok(_) => (),
        Err(e) => {
            return Err(e);
        }
    }
    let (fee_token, fee_amount) = match check_fee(state, info, &target_chain) {
        Ok(p) => p,
        Err(e) => {
            return Err(e);
        }
    };
    let out_denom = token_denom(env.contract.clone(), state.ckbtc_token_id.clone());
    let payload = RedeemAllBTC {
        sender: info.sender.clone(),
        receiver,
        amount,
        target_chain,
        fee_token,
        fee_amount,
    };
    let out = Response::new().add_message(
        Dispatch {
            op: HostOp::Swap {
                pool_id: state.allbtc_swap_pool_id,
                in_denom: state.allbtc_token_denom.clone(),
                in_amount: amount,
                out_denom,
                min_out_amount: amount,
            },
            callback: Some(PendingOp::SwapAllbtcToCkbtc(payload)),
        },
    );
    proof {
        let step = spec_redeem_all_btc(
            old(state)@,
            env@,
            info@,
            receiver@,
            amount,
            target_chain@,
        );
        assert(state@ =~~= step.0);
        assert(step.1 is Ok);
        assert(out@ =~~= step.1->Ok_0);
        assert(result_view(Ok::<Response, ContractError>(out)) == step.1);
    }
    Ok(out)
}

/// Hands governance to a new route address; admin only.
pub open spec fn spec_update_route(s: StateView, sender: Seq<char>, route: Seq<char>) -> (
    StateView,
    Result<ResponseView, ErrorView>,
) {
    if sender != s.admin {
        (s, Err(ErrorView::Unauthorized))
    } else {
        (
            StateView { route, ..s },
            Ok(
                ResponseView {
                    messages: Seq::empty(),
                    events: seq![EventView::RouteUpdated { new_route: route }],
                },
            ),
        )
    }
}

/// Changes the governance route address.
pub fn update_route(state: &mut State, info: &MessageInfo, route: String) -> (r: Result<
    Response,
    ContractError,
>)
    requires
        old(state).wf(),
    ensures
        final(state).wf(),
        final(state)@ == spec_update_route(old(state)@, info@.sender, route@).0,
        result_view(r) == spec_update_route(old(state)@, info@.sender, route@).1,
{
    if !info.sender.eq(&state.admin) {
        return Err(ContractError::Unauthorized);
    }
    state.route = route.clone();
    let out = Response::new().add_event(Event::RouteUpdated { new_route: route });
    proof {
        let step = spec_update_route(old(state)@, info@.sender, route@);
        assert(state@ =~~= step.0);
        assert(step.1 is Ok);
        assert(out@ =~~= step.1->Ok_0);
        assert(result_view(Ok::<Response, ContractError>(out)) == step.1);
    }
    Ok(out)
}

/// Sets the redeem minimum of one token towards one chain; admin only.
/// The minimum is stored under the canonical token identifier.
pub open spec fn spec_redeem_setting(
    s: StateView,
    sender: Seq<char>,
    token_id: Seq<char>,
    target_chain: Seq<char>,
    min_amount: u128,
) -> (StateView, Result<ResponseView, ErrorView>) {
    if sender != s.admin {
        (s, Err(ErrorView::Unauthorized))
    } else {
        (
            StateView {
                target_chain_redeem_min_amount: s.target_chain_redeem_min_amount.insert(
                    (canonical_id(token_id), target_chain),
                    min_amount,
                ),
                ..s
            },
            Ok(
                ResponseView {
                    messages: Seq::empty(),
                    events: seq![
                        EventView::RedeemSettingUpdated { token_id, target_chain, min_amount },
                    ],
                },
            ),
        )
    }
}

/// Configures the redeem minimum of one token towards one chain.
pub fn redeem_setting(
    state: &mut State,
    info: &MessageInfo,
    token_id: String,
    target_chain: String,
    min_amount: u128,
) -> (r: Result<Response, ContractError>)
    requires
        old(state).wf(),
    ensures
        final(state).wf(),
        final(state)@ == spec_redeem_setting(
            old(state)@,
            info@.sender,
            token_id@,
            target_chain@,
            min_amount,
        ).0,
        result_view(r) == spec_redeem_setting(
            old(state)@,
            info@.sender,
            token_id@,
            target_chain@,
            min_amount,
        ).1,
{
    if !info.sender.eq(&state.admin) {
        return Err(ContractError::Unauthorized);
    }
    let canon = normalize_token_id(&token_id);
    state.target_chain_redeem_min_amount.insert((canon, target_chain.clone()), min_amount);
    let out = Response::new().add_event(
        Event::RedeemSettingUpdated { token_id, target_chain, min_amount },
    );
    proof {
        let step = spec_redeem_setting(
            old(state)@,
            info@.sender,
            token_id@,
            target_chain@,
            min_amount,
        );
        assert(state@ =~~= step.0);
        assert(step.1 is Ok);
        assert(out@ =~~= step.1->Ok_0);
        assert(result_view(Ok::<Response, ContractError>(out)) == step.1);
    }
    Ok(out)
}

/// Rewrites a token's metadata; admin only. An unknown identifier
/// creates the record, so a lost update cannot strand a token.
pub open spec fn spec_update_token(
    s: StateView,
    env: HostEnvView,
    sender: Seq<char>,
    t: TokenView,
) -> (StateView, Result<ResponseView, ErrorView>) {
    if sender != s.admin {
        (s, Err(ErrorView::Unauthorized))
    } else {
        (
            spec_register_token(s, t),
            Ok(
                ResponseView {
                    messages: seq![
                        DispatchView {
                            op: spec_token_metadata_op(env.contract, spec_stored_token(t)),
                            callback: None,
                        },
                    ],
                    events: Seq::empty(),
                },
            ),
        )
    }
}

/// Updates (or, for an unknown identifier, creates) a token record.
pub fn update_token(
    state: &mut State,
    env: &HostEnv,
    info: &MessageInfo,
    token_id: String,
    name: String,
    symbol: String,
    decimals: u8,
    icon: Option<String>,
) -> (r: Result<Response, ContractError>)
    requires
        old(state).wf(),
    ensures
        final(state).wf(),
        final(state)@ == spec_update_token(
            old(state)@,
            env@,
            info@.sender,
            TokenView {
                token_id: token_id@,
                name: name@,
                symbol: symbol@,
                decimals,
                icon: icon.deep_view(),
            },
        ).0,
        result_view(r) == spec_update_token(
            old(state)@,
            env@,
            info@.sender,
            TokenView {
                token_id: token_id@,
                name: name@,
                symbol: symbol@,
                decimals,
                icon: icon.deep_view(),
            },
        ).1,
{
    if !info.sender.eq(&state.admin) {
        return Err(ContractError::Unauthorized);
    }
    let canon = normalize_token_id(&token_id);
    let base = token_denom(env.contract.clone(), canon.clone());
    let icon_text = match &icon {
        Some(s) => s.clone(),
        None => String::new(),
    };
    let meta = Dispatch {
        op: HostOp::SetDenomMetadata {
            base_denom: base,
            name: name.clone(),
            symbol: symbol.clone(),
            decimals,
            icon: icon_text,
        },
        callback: None,
    };
    if !canon.eq(&token_id) {
        state.runes_replaced_id_map.insert(canon.clone(), token_id);
    }
    let stored = Token { token_id: canon.clone(), name, symbol, decimals, icon };
    state.tokens.insert(canon, stored);
    let out = Response::new().add_message(meta);
    proof {
        let t = TokenView {
            token_id: token_id@,
            name: name@,
            symbol: symbol@,
            decimals,
            icon: icon.deep_view(),
        };
        let step = spec_update_token(old(state)@, env@, info@.sender, t);
        assert(state@ =~~= step.0);
        assert(step.1 is Ok);
        assert(out@ =~~= step.1->Ok_0);
        assert(result_view(Ok::<Response, ContractError>(out)) == step.1);
        assert forall|k: Seq<char>| #[trigger] state@.tokens.contains_key(k)
            implies state@.tokens[k].token_id == k by {
            if old(state)@.tokens.contains_key(k) {
                assert(old(state)@.tokens[k].token_id == k);
            }
        }
    }
    Ok(out)
}

/// Returns attached funds to a receiver; admin only, fire-and-forget.
pub open spec fn spec_refund_token(
    s: StateView,
    sender: Seq<char>,
    denom: Seq<char>,
    receiver: Seq<char>,
    amount: u128,
) -> (StateView, Result<ResponseView, ErrorView>) {
    if sender != s.admin {
        (s, Err(ErrorView::Unauthorized))
    } else {
        (
            s,
            Ok(
                ResponseView {
                    messages: seq![
                        DispatchView {
                            op: HostOpView::BankSend { denom, amount, recipient: receiver },
                            callback: None,
                        },
                    ],
                    events: seq![EventView::RefundRequested { denom, receiver, amount }],
                },
            ),
        )
    }
}

/// Refunds funds held by the contract.
pub fn refund_token(
    state: &mut State,
    info: &MessageInfo,
    denom: String,
    receiver: String,
    amount: u128,
) -> (r: Result<Response, ContractError>)
    requires
        old(state).wf(),
    ensures
        final(state).wf(),
        final(state)@ == spec_refund_token(old(state)@, info@.sender, denom@, receiver@, amount).0,
        result_view(r) == spec_refund_token(
            old(state)@,
            info@.sender,
            denom@,
            receiver@,
            amount,
        ).1,
{
    if !info.sender.eq(&state.admin) {
        return Err(ContractError::Unauthorized);
    }
    let out = Response::new().add_message(
        Dispatch {
            op: HostOp::BankSend {
                denom: denom.clone(),
                amount,
                recipient: receiver.clone(),
            },
            callback: None,
        },
    ).add_event(Event::RefundRequested { denom, receiver, amount });
    proof {
        let step = spec_refund_token(old(state)@, info@.sender, denom@, receiver@, amount);
        assert(state@ =~~= step.0);
        assert(step.1 is Ok);
        assert(out@ =~~= step.1->Ok_0);
        assert(result_view(Ok::<Response, ContractError>(out)) == step.1);
    }
    Ok(out)
}

/// The freshly initialized state: the sender becomes admin, the given
/// route governs, everything else is empty and the chain is active.
pub open spec fn spec_initial_state(msg: InstantiateMsg, sender: Seq<char>) -> StateView {
    StateView {
        route: msg.route@,
        admin: sender,
        tokens: Map::empty(),
        handled_tickets: Set::empty(),
        handled_directives: Set::empty(),
        target_chain_factor: Map::empty(),
        fee_token: None,
        fee_token_factor: None,
        counterparties: Map::empty(),
        chain_id: msg.chain_id@,
        chain_state: ChainState::Active,
        target_chain_redeem_min_amount: Map::empty(),
        generate_ticket_sequence: 0,
        ckbtc_token_id: Seq::empty(),
        allbtc_token_denom: Seq::empty(),
        allbtc_swap_pool_id: 0,
        runes_replaced_id_map: Map::empty(),
        ticket_requests: Map::empty(),
    }
}

/// Initializes the engine's state.
pub fn instantiate(msg: InstantiateMsg, info: &MessageInfo) -> (r: State)
    ensures
        r.wf(),
        r@ == spec_initial_state(msg, info@.sender),
{
    let state = State {
        route: msg.route,
        admin: info.sender.clone(),
        tokens: AssocTable::new(),
        handled_tickets: KeySet::new(),
        handled_directives: KeySet::new(),
        target_chain_factor: AssocTable::new(),
        fee_token: None,
        fee_token_factor: None,
        counterparties: AssocTable::new(),
        chain_id: msg.chain_id,
        chain_state: ChainState::Active,
        target_chain_redeem_min_amount: AssocTable::new(),
        generate_ticket_sequence: 0,
        ckbtc_token_id: String::new(),
        allbtc_token_denom: String::new(),
        allbtc_swap_pool_id: 0,
        runes_replaced_id_map: AssocTable::new(),
        ticket_requests: AssocTable::new(),
    };
    proof {
        assert(state@ =~~= spec_initial_state(msg, info@.sender));
    }
    state
}

/// A release version, compared lexicographically.
pub open spec fn version_before(a: (u64, u64, u64), b: (u64, u64, u64)) -> bool {
    ||| a.0 < b.0
    ||| (a.0 == b.0 && a.1 < b.1)
    ||| (a.0 == b.0 && a.1 == b.1 && a.2 < b.2)
}

/// Whether a migration may proceed: same contract name, and strictly
/// newer version.
pub open spec fn spec_migrate_guard(
    stored_name: Seq<char>,
    name: Seq<char>,
    stored_version: (u64, u64, u64),
    version: (u64, u64, u64),
) -> Result<(), ErrorView> {
    if stored_name != name {
        Err(ErrorView::CustomError("Can only upgrade from same type"@))
    } else if !version_before(stored_version, version) {
        Err(ErrorView::CustomError("Cannot upgrade from a newer version"@))
    } else {
        Ok(())
    }
}

/// Guards a migration: the stored contract name must match and the
/// stored version must be strictly older.
pub fn migrate_guard(
    stored_name: &String,
    name: &String,
    stored_version: (u64, u64, u64),
    version: (u64, u64, u64),
) -> (r: Result<(), ContractError>)
    ensures
        unit_result_view(r) == spec_migrate_guard(stored_name@, name@, stored_version, version),
{
    if !stored_name.eq(name) {
        return Err(ContractError::CustomError(String::from_str("Can only upgrade from same type")));
    }
    let older = stored_version.0 < version.0 || (stored_version.0 == version.0 && (
    stored_version.1 < version.1 || (stored_version.1 == version.1 && stored_version.2
        < version.2)));
    if !older {
        return Err(
            ContractError::CustomError(
                String::from_str("Cannot upgrade from a newer version"),
            ),
        );
    }
    Ok(())
}

/// The dispatch of one inbound invocation: refused while this chain is
/// deactivated; a successful handler's response additionally reports
/// which contract handled it.
pub open spec fn spec_execute(
    s: StateView,
    env: HostEnvView,
    info: MessageInfoView,
    msg: ExecuteMsg,
) -> (StateView, Result<ResponseView, ErrorView>) {
    if s.chain_state != ChainState::Active {
        (s, Err(ErrorView::ChainDeactive))
    } else {
        let step = match msg {
            ExecuteMsg::ExecDirective { seq, directive } => spec_exec_directive(
                s,
                env,
                info.sender,
                seq,
                directive@,
            ),
            ExecuteMsg::PrivilegeMintToken {
                ticket_id,
                token_id,
                receiver,
                amount,
                transmuter,
            } => spec_privilege_mint_token(
                s,
                env,
                info.sender,
                ticket_id@,
                token_id@,
                receiver@,
                amount,
                transmuter.deep_view(),
            ),
            ExecuteMsg::RedeemToken { token_id, receiver, amount, target_chain } => {
                spec_redeem_token(s, env, info, token_id@, receiver@, amount, target_chain@)
            }
            ExecuteMsg::RedeemAllBTC { receiver, amount, target_chain } => spec_redeem_all_btc(
                s,
                env,
                info,
                receiver@,
                amount,
                target_chain@,
            ),
            ExecuteMsg::GenerateTicket {
                token_id,
                sender,
                receiver,
                amount,
                target_chain,
                action,
                memo,
            } => spec_generate_ticket(
                s,
                env,
                info,
                token_id@,
                sender@,
                receiver@,
                amount,
                target_chain@,
                action,
                memo.deep_view(),
            ),
            ExecuteMsg::UpdateRoute { route } => spec_update_route(s, info.sender, route@),
            ExecuteMsg::RedeemSetting { token_id, target_chain, min_amount } => {
                spec_redeem_setting(s, info.sender, token_id@, target_chain@, min_amount)
            }
            ExecuteMsg::UpdateToken { token_id, name, symbol, decimals, icon } => {
                spec_update_token(
                    s,
                    env,
                    info.sender,
                    TokenView {
                        token_id: token_id@,
                        name: name@,
                        symbol: symbol@,
                        decimals,
                        icon: icon.deep_view(),
                    },
                )
            }
            ExecuteMsg::RefundToken { denom, receiver, amount } => spec_refund_token(
                s,
                info.sender,
                denom@,
                receiver@,
                amount,
            ),
        };
        match step.1 {
            Ok(resp) => (
                step.0,
                Ok(
                    ResponseView {
                        messages: resp.messages,
                        events: resp.events.push(
                            EventView::ExecuteMsgHandled { contract: env.contract },
                        ),
                    },
                ),
            ),
            Err(e) => (step.0, Err(e)),
        }
    }
}

/// Handles one inbound invocation.
pub fn execute(state: &mut State, env: &HostEnv, info: &MessageInfo, msg: ExecuteMsg) -> (r:
    Result<Response, ContractError>)
    requires
        old(state).wf(),
        (msg matches ExecuteMsg::RedeemToken { .. } || msg matches ExecuteMsg::GenerateTicket {
            ..
        } || msg matches ExecuteMsg::RedeemAllBTC { .. }) ==> fee_funds_fit(old(state)@, info@),
        (msg matches ExecuteMsg::RedeemToken { .. } || msg matches ExecuteMsg::GenerateTicket {
            ..
        }) ==> old(state)@.generate_ticket_sequence < u64::MAX,
    ensures
        final(state).wf(),
        final(state)@ == spec_execute(old(state)@, env@, info@, msg).0,
        result_view(r) == spec_execute(old(state)@, env@, info@, msg).1,
{
    if !(state.chain_state == ChainState::Active) {
        return Err(ContractError::ChainDeactive);
    }
    let ghost msg0 = msg;
    let step = match msg {
        ExecuteMsg::ExecDirective { seq, directive } => exec_directive(
            state,
            env,
            info,
            seq,
            directive,
        ),
        ExecuteMsg::PrivilegeMintToken { ticket_id, token_id, receiver, amount, transmuter } => {
            privilege_mint_token(
                state,
                env,
                info,
                ticket_id,
                token_id,
                receiver,
                amount,
                transmuter,
            )
        }
        ExecuteMsg::RedeemToken { token_id, receiver, amount, target_chain } => redeem_token(
            state,
            env,
            info,
            token_id,
            receiver,
            amount,
            target_chain,
        ),
        ExecuteMsg::RedeemAllBTC { receiver, amount, target_chain } => redeem_all_btc(
            state,
            env,
            info,
            receiver,
            amount,
            target_chain,
        ),
        ExecuteMsg::GenerateTicket {
            token_id,
            sender,
            receiver,
            amount,
            target_chain,
            action,
            memo,
        } => generate_ticket(
            state,
            env,
            info,
            token_id,
            sender,
            receiver,
            amount,
            target_chain,
            action,
            memo,
        ),
        ExecuteMsg::UpdateRoute { route } => update_route(state, info, route),
        ExecuteMsg::RedeemSetting { token_id, target_chain, min_amount } => redeem_setting(
            state,
            info,
            token_id,
            target_chain,
            min_amount,
        ),
        ExecuteMsg::UpdateToken { token_id, name, symbol, decimals, icon } => update_token(
            state,
            env,
            info,
            token_id,
            name,
            symbol,
            decimals,
            icon,
        ),
        ExecuteMsg::RefundToken { denom, receiver, amount } => refund_token(
            state,
            info,
            denom,
            receiver,
            amount,
        ),
    };
    match step {
        Ok(resp) => {
            let out = resp.add_event(Event::ExecuteMsgHandled { contract: env.contract.clone() });
            proof {
                let whole = spec_execute(old(state)@, env@, info@, msg0);
                assert(whole.1 is Ok);
                assert(out@ =~~= whole.1->Ok_0);
                assert(result_view(Ok::<Response, ContractError>(out)) == whole.1);
            }
            Ok(out)
        }
        Err(e) => Err(e),
    }
}

/// What a token-list answer must hold: exactly the registry's records,
/// each reachable in the registry under its own identifier.
pub open spec fn spec_token_list_ok(state: State, r: GetTokenResponse) -> bool {
    &&& r.tokens@.len() == state.tokens.entries@.len()
    &&& forall|i: int|
        0 <= i < r.tokens@.len() ==> r.tokens@[i]@ == state.tokens.entries@[i].1@
    &&& forall|i: int|
        0 <= i < r.tokens@.len() ==> #[trigger] state@.tokens.contains_key(
            r.tokens@[i]@.token_id,
        ) && state@.tokens[r.tokens@[i]@.token_id] == r.tokens@[i]@
    &&& forall|k: Seq<char>| #[trigger]
        state@.tokens.contains_key(k) ==> exists|i: int|
            0 <= i < r.tokens@.len() && r.tokens@[i]@.token_id == k
}

/// Lists every registered token.
pub fn get_token_list(state: &State) -> (r: GetTokenResponse)
    requires
        state.wf(),
    ensures
        spec_token_list_ok(*state, r),
{
    let n = state.tokens.entries.len();
    let mut tokens: Vec<Token> = Vec::new();
    let mut i: usize = 0;
    while i < n
        invariant
            i <= n,
            n == state.tokens.entries@.len(),
            tokens@.len() == i,
            forall|j: int| 0 <= j < i ==> tokens@[j] == state.tokens.entries@[j].1,
        decreases n - i,
    {
        tokens.push(state.tokens.entries[i].1.exact_clone());
        i = i + 1;
    }
    let r = GetTokenResponse { tokens };
    proof {
        assert forall|i: int| 0 <= i < r.tokens@.len()
            implies #[trigger] state@.tokens.contains_key(r.tokens@[i]@.token_id)
            && state@.tokens[r.tokens@[i]@.token_id] == r.tokens@[i]@ by {
            lemma_assoc_get(state.tokens.entries@, i);
        }
        assert forall|k: Seq<char>| #[trigger] state@.tokens.contains_key(k)
            implies exists|i: int|
            0 <= i < r.tokens@.len() && r.tokens@[i]@.token_id == k by {
            lemma_assoc_exists::<String, Token>(state.tokens.entries@, k);
            let i = choose|i: int|
                0 <= i < state.tokens.entries@.len() && state.tokens.entries@[i].0@ == k;
            lemma_assoc_get(state.tokens.entries@, i);
            assert(r.tokens@[i]@.token_id == k);
        }
    }
    r
}

/// What a fee-info answer must hold: the configuration as stored.
pub open spec fn spec_fee_info_ok(state: State, r: GetFeeResponse) -> bool {
    &&& r.fee_token == state.fee_token
    &&& r.fee_token_factor == state.fee_token_factor
    &&& r.target_chain_factor@ == state.target_chain_factor.entries@
}

/// Reports the fee configuration.
pub fn get_fee_info(state: &State) -> (r: GetFeeResponse)
    requires
        state.wf(),
    ensures
        spec_fee_info_ok(*state, r),
{
    let n = state.target_chain_factor.entries.len();
    let mut factors: Vec<(String, u128)> = Vec::new();
    let mut i: usize = 0;
    while i < n
        invariant
            i <= n,
            n == state.target_chain_factor.entries@.len(),
            factors@.len() == i,
            forall|j: int| 0 <= j < i ==> factors@[j] == state.target_chain_factor.entries@[j],
        decreases n - i,
    {
        factors.push(state.target_chain_factor.entries[i].exact_clone());
        i = i + 1;
    }
    proof {
        assert(factors@ =~= state.target_chain_factor.entries@);
    }
    GetFeeResponse {
        fee_token: state.fee_token.exact_clone(),
        fee_token_factor: state.fee_token_factor,
        target_chain_factor: factors,
    }
}

/// The resolved fee of one destination chain: the configured pieces as
/// stored, and the product where both factors are set, the chain's
/// factor exists and the product fits the amount type.
pub open spec fn spec_target_chain_fee(s: StateView, target_chain: Seq<char>) -> Option<u128> {
    match (s.fee_token, s.fee_token_factor) {
        (Some(_), Some(f)) => {
            if s.target_chain_factor.contains_key(target_chain) && f
                * s.target_chain_factor[target_chain] <= u128::MAX {
                Some((f * s.target_chain_factor[target_chain]) as u128)
            } else {
                None
            }
        }
        _ => None,
    }
}

/// Resolves the fee of one destination chain.
pub fn get_target_chain_fee(state: &State, target_chain: String) -> (r:
    GetTargetChainFeeResponse)
    requires
        state.wf(),
    ensures
        r.target_chain@ == target_chain@,
        r.fee_token == state.fee_token,
        r.fee_token_factor == state.fee_token_factor,
        r.fee_amount == spec_target_chain_fee(state@, target_chain@),
{
    let fee_amount: Option<u128> = match (&state.fee_token, state.fee_token_factor) {
        (Some(_), Some(f)) => match state.target_chain_factor.get(&target_chain) {
            Some(c) => f.checked_mul(*c),
            None => None,
        },
        _ => None,
    };
    GetTargetChainFeeResponse {
        target_chain,
        fee_token: state.fee_token.exact_clone(),
        fee_token_factor: state.fee_token_factor,
        fee_amount,
    }
}

/// Copies the counterparty table; a chain record reads the same.
fn clone_chain_table(t: &AssocTable<crate::route::ChainId, Chain>) -> (r: AssocTable<
    crate::route::ChainId,
    Chain,
>)
    requires
        t.wf(),
    ensures
        r.wf(),
        r@ == t@,
{
    let n = t.entries.len();
    let mut entries: Vec<(String, Chain)> = Vec::new();
    let mut i: usize = 0;
    while i < n
        invariant
            i <= n,
            n == t.entries@.len(),
            entries@.len() == i,
            forall|j: int|
                0 <= j < i ==> entries@[j].0@ == t.entries@[j].0@ && entries@[j].1@
                    == t.entries@[j].1@,
        decreases n - i,
    {
        let chain = &t.entries[i].1;
        let copy = Chain {
            chain_id: chain.chain_id.clone(),
            canister_id: chain.canister_id.clone(),
            chain_type: chain.chain_type,
            chain_state: chain.chain_state,
            contract_address: chain.contract_address.exact_clone(),
            counterparties: clone_opt_string_vec(&chain.counterparties),
            fee_token: chain.fee_token.exact_clone(),
        };
        proof {
            assert(copy@ =~= t.entries@[i as int].1@);
        }
        entries.push((t.entries[i].0.clone(), copy));
        i = i + 1;
    }
    let r = AssocTable { entries };
    proof {
        lemma_assoc_congruence(r.entries@, t.entries@);
    }
    r
}

/// Copies the full state snapshot.
pub fn get_state(state: &State) -> (r: State)
    requires
        state.wf(),
    ensures
        r.wf(),
        r@ == state@,
{
    let r = State {
        route: state.route.clone(),
        admin: state.admin.clone(),
        tokens: clone_table(&state.tokens),
        handled_tickets: clone_keys(&state.handled_tickets),
        handled_directives: clone_keys(&state.handled_directives),
        target_chain_factor: clone_table(&state.target_chain_factor),
        fee_token: state.fee_token.exact_clone(),
        fee_token_factor: state.fee_token_factor,
        counterparties: clone_chain_table(&state.counterparties),
        chain_id: state.chain_id.clone(),
        chain_state: state.chain_state,
        target_chain_redeem_min_amount: clone_table(&state.target_chain_redeem_min_amount),
        generate_ticket_sequence: state.generate_ticket_sequence,
        ckbtc_token_id: state.ckbtc_token_id.clone(),
        allbtc_token_denom: state.allbtc_token_denom.clone(),
        allbtc_swap_pool_id: state.allbtc_swap_pool_id,
        runes_replaced_id_map: clone_table(&state.runes_replaced_id_map),
        ticket_requests: clone_table(&state.ticket_requests),
    };
    proof {
        assert(r@ =~~= state@);
    }
    r
}

/// Answers a read accessor request.
pub fn query(state: &State, msg: QueryMsg) -> (r: QueryResponse)
    requires
        state.wf(),
    ensures
        msg matches QueryMsg::GetState {  } ==> r matches QueryResponse::State(s2) && s2@
            == state@,
        msg matches QueryMsg::GetTokenList {  } ==> r matches QueryResponse::TokenList(t)
            && spec_token_list_ok(*state, t),
        msg matches QueryMsg::GetFeeInfo {  } ==> r matches QueryResponse::FeeInfo(f)
            && spec_fee_info_ok(*state, f),
        msg matches QueryMsg::GetTargetChainFee { target_chain } ==> r
            matches QueryResponse::TargetChainFee(f) && f.target_chain@ == target_chain@
            && f.fee_token == state.fee_token && f.fee_token_factor == state.fee_token_factor
            && f.fee_amount == spec_target_chain_fee(state@, target_chain@),
{
    match msg {
        QueryMsg::GetState {} => QueryResponse::State(get_state(state)),
        QueryMsg::GetTokenList {} => QueryResponse::TokenList(get_token_list(state)),
        QueryMsg::GetFeeInfo {} => QueryResponse::FeeInfo(get_fee_info(state)),
        QueryMsg::GetTargetChainFee { target_chain } => QueryResponse::TargetChainFee(
            get_target_chain_fee(state, target_chain),
        ),
    }
}

} // verus!
