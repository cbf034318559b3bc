//! The saga continuation engine.
//!
//! The host delivers the outcome of every dispatched operation that
//! asked for a callback, together with the continuation payload attached
//! at dispatch time. Each pending step either terminates the workflow
//! (emitting its events), dispatches exactly one next operation, or
//! reports failure; a failed step is terminal for its saga, with no
//! compensation.

use vstd::prelude::*;
use vstd::string::StringExecFns;

use crate::contract::{
    build_burn_msg, result_view, spec_token_denom, token_denom, transmute_refused_text,
};
use crate::error::{ContractError, ErrorView};
use crate::state::{
    GenerateTicketReq, GenerateTicketReqView, IcpChainKeyToken, State, StateView, TxAction,
};
use crate::store::ExactClone;
use crate::types::{
    Dispatch, DispatchView, Event, EventView, HostEnv, HostEnvView, HostOp, HostOpView,
    MintTokenPayload, MintTokenPayloadView, PendingOp, PendingOpView, RedeemAllBTC,
    RedeemAllBTCView, Response, ResponseView,
};

verus! {

/// A mint concluded: without a transmute request the saga is done and
/// the mint is announced; with one, the minted asset (held by this
/// contract) is swapped into the pooled asset, re-wrapping the same
/// payload as the continuation. The whitelisted pair is checked again
/// here because the registry may have moved between dispatch and
/// callback.
pub open spec fn spec_reply_mint_token(
    s: StateView,
    env: HostEnvView,
    p: MintTokenPayloadView,
) -> Result<ResponseView, ErrorView> {
    match p.transmuter {
        None => Ok(
            ResponseView {
                messages: Seq::empty(),
                events: seq![
                    EventView::TokenMinted {
                        ticket_id: p.ticket_id,
                        token_id: p.token_id,
                        receiver: p.receiver,
                        amount: p.amount,
                    },
                ],
            },
        ),
        Some(target) => {
            if p.token_id != s.ckbtc_token_id || target != s.allbtc_token_denom {
                Err(ErrorView::CustomError(transmute_refused_text()))
            } else {
                Ok(
                    ResponseView {
                        messages: seq![
                            DispatchView {
                                op: HostOpView::Swap {
                                    pool_id: s.allbtc_swap_pool_id,
                                    in_denom: spec_token_denom(env.contract, p.token_id),
                                    in_amount: p.amount,
                                    out_denom: s.allbtc_token_denom,
                                    min_out_amount: p.amount,
                                },
                                callback: Some(PendingOpView::SwapCkbtcToAllbtc(p)),
                            },
                        ],
                        events: Seq::empty(),
                    },
                )
            }
        }
    }
}

/// The swap into the pooled asset concluded: forward the swapped amount
/// to the original receiver, with the same payload as continuation.
pub open spec fn spec_reply_swap_ckbtc_to_allbtc(
    s: StateView,
    p: MintTokenPayloadView,
) -> ResponseView {
    ResponseView {
        messages: seq![
            DispatchView {
                op: HostOpView::BankSend {
                    denom: s.allbtc_token_denom,
                    amount: p.amount,
                    recipient: p.receiver,
                },
                callback: Some(PendingOpView::SendAllbtc(p)),
            },
        ],
        events: Seq::empty(),
    }
}

/// The swap back into the bridged token concluded: draw the next
/// outbound sequence number and dispatch the burn, with a freshly
/// constructed outbound record as continuation.
pub open spec fn spec_reply_swap_allbtc_to_ckbtc(
    s: StateView,
    env: HostEnvView,
    p: RedeemAllBTCView,
) -> (StateView, ResponseView) {
    let req = GenerateTicketReqView {
        seq: s.generate_ticket_sequence,
        target_chain_id: p.target_chain,
        sender: p.sender,
        receiver: p.receiver,
        token_id: s.ckbtc_token_id,
        amount: p.amount,
        action: TxAction::RedeemIcpChainKeyAssets(IcpChainKeyToken::CKBTC),
        timestamp: env.time_nanos,
        block_height: env.block_height,
        memo: None,
        fee_token: p.fee_token,
        fee_amount: p.fee_amount,
    };
    (
        StateView { generate_ticket_sequence: (s.generate_ticket_sequence + 1) as u64, ..s },
        ResponseView {
            messages: seq![
                DispatchView {
                    op: HostOpView::Burn {
                        denom: spec_token_denom(env.contract, s.ckbtc_token_id),
                        amount: p.amount,
                        source: env.contract,
                    },
                    callback: Some(PendingOpView::Redeem(req)),
                },
            ],
            events: Seq::empty(),
        },
    )
}

/// The whole continuation step: one pending operation, one outcome.
pub open spec fn spec_reply(
    s: StateView,
    env: HostEnvView,
    op: PendingOpView,
    succeeded: bool,
) -> (StateView, Result<ResponseView, ErrorView>) {
    match op {
        PendingOpView::Redeem(req) => {
            if succeeded {
                (
                    StateView { ticket_requests: s.ticket_requests.insert(req.seq, req), ..s },
                    Ok(
                        ResponseView {
                            messages: Seq::empty(),
                            events: seq![
                                EventView::RedeemRequested {
                                    token_id: req.token_id,
                                    sender: req.sender,
                                    receiver: req.receiver,
                                    amount: req.amount,
                                    target_chain: req.target_chain_id,
                                },
                                EventView::GenerateTicketRequested(req),
                            ],
                        },
                    ),
                )
            } else {
                (
                    s,
                    Ok(
                        ResponseView {
                            messages: Seq::empty(),
                            events: seq![EventView::RedeemFailed],
                        },
                    ),
                )
            }
        }
        PendingOpView::GenerateTicket(req) => {
            if succeeded {
                (
                    StateView { ticket_requests: s.ticket_requests.insert(req.seq, req), ..s },
                    Ok(
                        ResponseView {
                            messages: Seq::empty(),
                            events: seq![EventView::GenerateTicketRequested(req)],
                        },
                    ),
                )
            } else {
                (
                    s,
                    Ok(
                        ResponseView {
                            messages: Seq::empty(),
                            events: seq![EventView::GenerateTicketFailed],
                        },
                    ),
                )
            }
        }
        PendingOpView::MintToken(p) => {
            if succeeded {
                (s, spec_reply_mint_token(s, env, p))
            } else {
                (s, Ok(ResponseView { messages: Seq::empty(), events: Seq::empty() }))
            }
        }
        PendingOpView::SwapCkbtcToAllbtc(p) => {
            if succeeded {
                (s, Ok(spec_reply_swap_ckbtc_to_allbtc(s, p)))
            } else {
                (
                    s,
                    Ok(
                        ResponseView {
                            messages: Seq::empty(),
                            events: seq![
                                EventView::SwapCkbtcFailed {
                                    ticket_id: p.ticket_id,
                                    receiver: p.receiver,
                                    amount: p.amount,
                                },
                            ],
                        },
                    ),
                )
            }
        }
        PendingOpView::SwapAllbtcToCkbtc(p) => {
            if succeeded {
                let step = spec_reply_swap_allbtc_to_ckbtc(s, env, p);
                (step.0, Ok(step.1))
            } else {
                (
                    s,
                    Ok(
                        ResponseView {
                            messages: Seq::empty(),
                            events: seq![
                                EventView::SwapAllbtcFailed {
                                    sender: p.sender,
                                    receiver: p.receiver,
                                    amount: p.amount,
                                    target_chain: p.target_chain,
                                    fee_token: p.fee_token,
                                    fee_amount: p.fee_amount,
                                },
                            ],
                        },
                    ),
                )
            }
        }
        PendingOpView::SendAllbtc(p) => {
            if succeeded {
                (
                    s,
                    Ok(
                        ResponseView {
                            messages: Seq::empty(),
                            events: seq![
                                EventView::TokenMinted {
                                    ticket_id: p.ticket_id,
                                    token_id: p.token_id,
                                    receiver: p.receiver,
                                    amount: p.amount,
                                },
                            ],
                        },
                    ),
                )
            } else {
                (s, Err(ErrorView::ReplyError("send after swap failed"@)))
            }
        }
    }
}

/// Sequence numbers may still be drawn in a continuation.
pub open spec fn reply_sequence_fits(s: StateView, op: PendingOpView, succeeded: bool) -> bool {
    (op matches PendingOpView::SwapAllbtcToCkbtc(_) && succeeded)
        ==> s.generate_ticket_sequence < u64::MAX
}

/// Resumes a saga with the outcome of its pending operation.
pub fn reply(state: &mut State, env: &HostEnv, op: PendingOp, succeeded: bool) -> (r: Result<
    Response,
    ContractError,
>)
    requires
        old(state).wf(),
        reply_sequence_fits(old(state)@, op@, succeeded),
    ensures
        final(state).wf(),
        final(state)@ == spec_reply(old(state)@, env@, op@, succeeded).0,
        result_view(r) == spec_reply(old(state)@, env@, op@, succeeded).1,
{
    if succeeded {
        reply_success(state, env, op)
    } else {
        reply_error(state, env, op)
    }
}

/// Resumes a saga whose pending operation succeeded.
pub fn reply_success(state: &mut State, env: &HostEnv, op: PendingOp) -> (r: Result<
    Response,
    ContractError,
>)
    requires
        old(state).wf(),
        reply_sequence_fits(old(state)@, op@, true),
    ensures
        final(state).wf(),
        final(state)@ == spec_reply(old(state)@, env@, op@, true).0,
        result_view(r) == spec_reply(old(state)@, env@, op@, true).1,
{
    match op {
        PendingOp::Redeem(req) => {
            let event_req = req.exact_clone();
            let redeem_event = Event::RedeemRequested {
                token_id: req.token_id.clone(),
                sender: req.sender.clone(),
                receiver: req.receiver.clone(),
                amount: req.amount,
                target_chain: req.target_chain_id.clone(),
            };
            state.ticket_requests.insert(req.seq, req);
            let out = Response::new().add_event(redeem_event).add_event(
                Event::GenerateTicketRequested(event_req),
            );
            proof {
                let step = spec_reply(old(state)@, env@, op@, true);
                assert(state@ =~~= step.0);
                assert(out@ =~~= step.1->Ok_0);
                assert(result_view(Ok::<Response, ContractError>(out)) == step.1);
            }
            Ok(out)
        }
        PendingOp::GenerateTicket(req) => {
            let event_req = req.exact_clone();
            state.ticket_requests.insert(req.seq, req);
            let out = Response::new().add_event(Event::GenerateTicketRequested(event_req));
            proof {
                let step = spec_reply(old(state)@, env@, op@, true);
                assert(state@ =~~= step.0);
                assert(out@ =~~= step.1->Ok_0);
                assert(result_view(Ok::<Response, ContractError>(out)) == step.1);
            }
            Ok(out)
        }
        PendingOp::MintToken(payload) => reply_mint_token(state, env, payload),
        PendingOp::SwapCkbtcToAllbtc(payload) => reply_swap_ckbtc_to_allbtc(state, env, payload),
        PendingOp::SwapAllbtcToCkbtc(payload) => reply_swap_allbtc_to_ckbtc(state, env, payload),
        PendingOp::SendAllbtc(payload) => {
            let out = Response::new().add_event(
                Event::TokenMinted {
                    ticket_id: payload.ticket_id,
                    token_id: payload.token_id,
                    receiver: payload.receiver,
                    amount: payload.amount,
                },
            );
            proof {
                let step = spec_reply(old(state)@, env@, op@, true);
                assert(state@ =~~= step.0);
                assert(out@ =~~= step.1->Ok_0);
                assert(result_view(Ok::<Response, ContractError>(out)) == step.1);
            }
            Ok(out)
        }
    }
}

/// Resumes a saga whose pending operation failed: the failure is
/// terminal, reported by events alone.
pub fn reply_error(state: &mut State, env: &HostEnv, op: PendingOp) -> (r: Result<
    Response,
    ContractError,
>)
    requires
        old(state).wf(),
    ensures
        final(state).wf(),
        final(state)@ == spec_reply(old(state)@, env@, op@, false).0,
        result_view(r) == spec_reply(old(state)@, env@, op@, false).1,
{
    match op {
        PendingOp::Redeem(_) => Ok(Response::new().add_event(Event::RedeemFailed)),
        PendingOp::GenerateTicket(_) => Ok(
            Response::new().add_event(Event::GenerateTicketFailed),
        ),
        PendingOp::MintToken(_) => Ok(Response::new()),
        PendingOp::SwapCkbtcToAllbtc(payload) => Ok(
            Response::new().add_event(
                Event::SwapCkbtcFailed {
                    ticket_id: payload.ticket_id,
                    receiver: payload.receiver,
                    amount: payload.amount,
                },
            ),
        ),
        PendingOp::SwapAllbtcToCkbtc(payload) => Ok(
            Response::new().add_event(
                Event::SwapAllbtcFailed {
                    sender: payload.sender,
                    receiver: payload.receiver,
                    amount: payload.amount,
                    target_chain: payload.target_chain,
                    fee_token: payload.fee_token,
                    fee_amount: payload.fee_amount,
                },
            ),
        ),
        PendingOp::SendAllbtc(_) => Err(
            ContractError::ReplyError(String::from_str("send after swap failed")),
        ),
    }
}

/// Resumes the mint step of a mint saga.
pub fn reply_mint_token(state: &mut State, env: &HostEnv, payload: MintTokenPayload) -> (r:
    Result<Response, ContractError>)
    requires
        old(state).wf(),
    ensures
        final(state).wf(),
        final(state)@ == old(state)@,
        result_view(r) == spec_reply_mint_token(old(state)@, env@, payload@),
{
    match &payload.transmuter {
        None => {
            let out = Response::new().add_event(
                Event::TokenMinted {
                    ticket_id: payload.ticket_id,
                    token_id: payload.token_id,
                    receiver: payload.receiver,
                    amount: payload.amount,
                },
            );
            proof {
                assert(out@ =~~= spec_reply_mint_token(old(state)@, env@, payload@)->Ok_0);
            }
            Ok(out)
        }
        Some(target) => {
            if !(payload.token_id.eq(&state.ckbtc_token_id) && target.eq(
                &state.allbtc_token_denom,
            )) {
                return Err(
                    ContractError::CustomError(
                        String::from_str("Only Support transmuter ckbtc to allBTC"),
                    ),
                );
            }
            let in_denom = token_denom(env.contract.clone(), payload.token_id.clone());
            let out = Response::new().add_message(
                Dispatch {
                    op: HostOp::Swap {
                        pool_id: state.allbtc_swap_pool_id,
                        in_denom,
                        in_amount: payload.amount,
                        out_denom: state.allbtc_token_denom.clone(),
                        min_out_amount: payload.amount,
                    },
                    callback: Some(PendingOp::SwapCkbtcToAllbtc(payload)),
                },
            );
            proof {
                assert(out@ =~~= spec_reply_mint_token(old(state)@, env@, payload@)->Ok_0);
            }
            Ok(out)
        }
    }
}

/// Resumes the forward step of a mint-transmute saga.
fn reply_swap_ckbtc_to_allbtc(state: &mut State, env: &HostEnv, payload: MintTokenPayload) -> (r:
    Result<Response, ContractError>)
    requires
        old(state).wf(),
    ensures
        final(state).wf(),
        final(state)@ == old(state)@,
        result_view(r) == Ok::<ResponseView, ErrorView>(
            spec_reply_swap_ckbtc_to_allbtc(old(state)@, payload@),
        ),
{
    let recipient = payload.receiver.clone();
    let out = Response::new().add_message(
        Dispatch {
            op: HostOp::BankSend {
                denom: state.allbtc_token_denom.clone(),
                amount: payload.amount,
                recipient,
            },
            callback: Some(PendingOp::SendAllbtc(payload)),
        },
    );
    proof {
        assert(out@ =~~= spec_reply_swap_ckbtc_to_allbtc(old(state)@, payload@));
    }
    Ok(out)
}

/// Resumes the burn step of a redeem-swap saga.
fn reply_swap_allbtc_to_ckbtc(state: &mut State, env: &HostEnv, payload: RedeemAllBTC) -> (r:
    Result<Response, ContractError>)
    requires
        old(state).wf(),
        old(state)@.generate_ticket_sequence < u64::MAX,
    ensures
        final(state).wf(),
        ({
            let step = spec_reply_swap_allbtc_to_ckbtc(old(state)@, env@, payload@);
            final(state)@ == step.0 && result_view(r) == Ok::<ResponseView, ErrorView>(step.1)
        }),
{
    let current_seq = state.generate_ticket_sequence;
    state.generate_ticket_sequence = current_seq + 1;
    let denom = token_denom(env.contract.clone(), state.ckbtc_token_id.clone());
    let req = GenerateTicketReq {
        seq: current_seq,
        target_chain_id: payload.target_chain,
        sender: payload.sender,
        receiver: payload.receiver,
        token_id: state.ckbtc_token_id.clone(),
        amount: payload.amount,
        action: TxAction::RedeemIcpChainKeyAssets(IcpChainKeyToken::CKBTC),
        timestamp: env.time_nanos,
        block_height: env.block_height,
        memo: None,
        fee_token: payload.fee_token,
        fee_amount: payload.fee_amount,
    };
    let out = Response::new().add_message(
        Dispatch {
            op: build_burn_msg(denom, payload.amount, env.contract.clone()),
            callback: Some(PendingOp::Redeem(req)),
        },
    );
    proof {
        let step = spec_reply_swap_allbtc_to_ckbtc(old(state)@, env@, payload@);
        assert(state@ =~~= step.0);
        assert(out@ =~~= step.1);
    }
    Ok(out)
}

} // verus!