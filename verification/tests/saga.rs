//! Exercises the ticket processor and the saga continuation engine.

use omnity_port_cosmos::contract::{execute, get_token_list, instantiate, privilege_mint_token};
use omnity_port_cosmos::error::ContractError;
use omnity_port_cosmos::msg::{ExecuteMsg, InstantiateMsg};
use omnity_port_cosmos::reply::{reply, reply_error, reply_success};
use omnity_port_cosmos::route::{
    Chain, ChainState, ChainType, Directive, Factor, FeeTokenFactor, TargetChainFactor, Token,
};
use omnity_port_cosmos::state::{State, TxAction};
use omnity_port_cosmos::types::{Coin, Event, HostEnv, HostOp, MessageInfo, PendingOp};

fn host_env() -> HostEnv {
    HostEnv {
        contract: "port1".to_string(),
        time_nanos: 1_700_000_000_000_000_000,
        block_height: 42,
    }
}

fn info(sender: &str, funds: Vec<Coin>) -> MessageInfo {
    MessageInfo { sender: sender.to_string(), funds }
}

fn coin(denom: &str, amount: u128) -> Coin {
    Coin { denom: denom.to_string(), amount }
}

fn fresh_state() -> State {
    instantiate(
        InstantiateMsg { route: "route1".to_string(), chain_id: "osmosis".to_string() },
        &info("admin1", vec![]),
    )
}

fn directive(state: &mut State, seq: u64, d: Directive) {
    let env = host_env();
    let msg_info = info("route1", vec![]);
    execute(state, &env, &msg_info, ExecuteMsg::ExecDirective { seq, directive: d })
        .expect("directive should apply");
}

/// A state with the rune token registered, chain "C" active, fees
/// configured, and the transmute pair whitelisted for token "ckbtc".
fn transmute_state() -> State {
    let mut state = fresh_state();
    directive(
        &mut state,
        1,
        Directive::AddToken(Token {
            token_id: "ckbtc".to_string(),
            name: "chain key bitcoin".to_string(),
            symbol: "ckBTC".to_string(),
            decimals: 8,
            icon: None,
        }),
    );
    directive(
        &mut state,
        2,
        Directive::AddChain(Chain {
            chain_id: "C".to_string(),
            canister_id: "canister".to_string(),
            chain_type: ChainType::ExecutionChain,
            chain_state: ChainState::Active,
            contract_address: None,
            counterparties: None,
            fee_token: None,
        }),
    );
    directive(
        &mut state,
        3,
        Directive::UpdateFee(Factor::UpdateFeeTokenFactor(FeeTokenFactor {
            fee_token: "FT".to_string(),
            fee_token_factor: 2,
        })),
    );
    directive(
        &mut state,
        4,
        Directive::UpdateFee(Factor::UpdateTargetChainFactor(TargetChainFactor {
            target_chain_id: "C".to_string(),
            target_chain_factor: 3,
        })),
    );
    state.ckbtc_token_id = "ckbtc".to_string();
    state.allbtc_token_denom = "allbtc".to_string();
    state.allbtc_swap_pool_id = 9;
    state
}

#[test]
fn ticket_minted_twice_fails_and_mints_nothing() {
    let mut state = transmute_state();
    let env = host_env();
    let msg_info = info("route1", vec![]);
    let first = privilege_mint_token(
        &mut state,
        &env,
        &msg_info,
        "ticket-1".to_string(),
        "ckbtc".to_string(),
        "alice".to_string(),
        50,
        None,
    )
    .unwrap();
    assert_eq!(first.messages.len(), 1);
    let second = privilege_mint_token(
        &mut state,
        &env,
        &msg_info,
        "ticket-1".to_string(),
        "ckbtc".to_string(),
        "alice".to_string(),
        50,
        None,
    );
    assert!(matches!(second, Err(ContractError::TicketAlreadyHandled)));
}

#[test]
fn mint_without_transmute_goes_to_receiver() {
    let mut state = transmute_state();
    let env = host_env();
    let r = privilege_mint_token(
        &mut state,
        &env,
        &info("route1", vec![]),
        "t1".to_string(),
        "ckbtc".to_string(),
        "alice".to_string(),
        50,
        None,
    )
    .unwrap();
    assert_eq!(
        r.messages[0].op,
        HostOp::Mint {
            denom: "factory/port1/ckbtc".to_string(),
            amount: 50,
            recipient: "alice".to_string(),
        }
    );
    // the saga announces the mint only in the continuation
    assert!(r.events.is_empty());
    match &r.messages[0].callback {
        Some(PendingOp::MintToken(p)) => {
            let done = reply(&mut state, &env, PendingOp::MintToken(p.clone()), true).unwrap();
            assert!(done.messages.is_empty());
            assert_eq!(
                done.events,
                vec![Event::TokenMinted {
                    ticket_id: "t1".to_string(),
                    token_id: "ckbtc".to_string(),
                    receiver: "alice".to_string(),
                    amount: 50,
                }]
            );
        }
        other => panic!("expected a mint continuation, got {:?}", other),
    }
}

#[test]
fn mint_with_unlisted_transmute_pair_fails() {
    let mut state = transmute_state();
    let env = host_env();
    let r = privilege_mint_token(
        &mut state,
        &env,
        &info("route1", vec![]),
        "t1".to_string(),
        "ckbtc".to_string(),
        "alice".to_string(),
        50,
        Some("otherpool".to_string()),
    );
    assert!(matches!(r, Err(ContractError::CustomError(_))));
}

#[test]
fn mint_of_unknown_token_fails() {
    let mut state = transmute_state();
    let env = host_env();
    let r = privilege_mint_token(
        &mut state,
        &env,
        &info("route1", vec![]),
        "t1".to_string(),
        "nothere".to_string(),
        "alice".to_string(),
        50,
        None,
    );
    assert!(matches!(r, Err(ContractError::TokenNotFound)));
}

#[test]
fn mint_from_stranger_is_unauthorized() {
    let mut state = transmute_state();
    let env = host_env();
    let r = privilege_mint_token(
        &mut state,
        &env,
        &info("stranger", vec![]),
        "t1".to_string(),
        "ckbtc".to_string(),
        "alice".to_string(),
        50,
        None,
    );
    assert!(matches!(r, Err(ContractError::Unauthorized)));
}

#[test]
fn mint_transmute_saga_dispatches_mint_swap_send() {
    let mut state = transmute_state();
    let env = host_env();
    // step one: the mint, held by the contract itself
    let start = privilege_mint_token(
        &mut state,
        &env,
        &info("route1", vec![]),
        "t1".to_string(),
        "ckbtc".to_string(),
        "alice".to_string(),
        50,
        Some("allbtc".to_string()),
    )
    .unwrap();
    assert_eq!(start.messages.len(), 1);
    assert_eq!(
        start.messages[0].op,
        HostOp::Mint {
            denom: "factory/port1/ckbtc".to_string(),
            amount: 50,
            recipient: "port1".to_string(),
        }
    );
    assert!(start.events.is_empty());
    let payload = match &start.messages[0].callback {
        Some(PendingOp::MintToken(p)) => p.clone(),
        other => panic!("expected a mint continuation, got {:?}", other),
    };
    // step two: the swap into the pooled asset
    let after_mint =
        reply_success(&mut state, &env, PendingOp::MintToken(payload.clone())).unwrap();
    assert_eq!(after_mint.messages.len(), 1);
    assert_eq!(
        after_mint.messages[0].op,
        HostOp::Swap {
            pool_id: 9,
            in_denom: "factory/port1/ckbtc".to_string(),
            in_amount: 50,
            out_denom: "allbtc".to_string(),
            min_out_amount: 50,
        }
    );
    assert!(after_mint.events.is_empty());
    let swap_payload = match &after_mint.messages[0].callback {
        Some(PendingOp::SwapCkbtcToAllbtc(p)) => p.clone(),
        other => panic!("expected a swap continuation, got {:?}", other),
    };
    // step three: the send to the original receiver
    let after_swap =
        reply_success(&mut state, &env, PendingOp::SwapCkbtcToAllbtc(swap_payload.clone()))
            .unwrap();
    assert_eq!(after_swap.messages.len(), 1);
    assert_eq!(
        after_swap.messages[0].op,
        HostOp::BankSend {
            denom: "allbtc".to_string(),
            amount: 50,
            recipient: "alice".to_string(),
        }
    );
    assert!(after_swap.events.is_empty());
    let send_payload = match &after_swap.messages[0].callback {
        Some(PendingOp::SendAllbtc(p)) => p.clone(),
        other => panic!("expected a send continuation, got {:?}", other),
    };
    // only now is the mint announced
    let done = reply_success(&mut state, &env, PendingOp::SendAllbtc(send_payload)).unwrap();
    assert!(done.messages.is_empty());
    assert_eq!(
        done.events,
        vec![Event::TokenMinted {
            ticket_id: "t1".to_string(),
            token_id: "ckbtc".to_string(),
            receiver: "alice".to_string(),
            amount: 50,
        }]
    );
    // the failing branch: a failed swap dispatches nothing further and
    // reports the original context
    let failed =
        reply_error(&mut state, &env, PendingOp::SwapCkbtcToAllbtc(swap_payload)).unwrap();
    assert!(failed.messages.is_empty());
    assert_eq!(
        failed.events,
        vec![Event::SwapCkbtcFailed {
            ticket_id: "t1".to_string(),
            receiver: "alice".to_string(),
            amount: 50,
        }]
    );
}

#[test]
fn burn_callback_persists_outbound_request() {
    let mut state = transmute_state();
    let env = host_env();
    let r = execute(
        &mut state,
        &env,
        &info("alice", vec![coin("FT", 6)]),
        ExecuteMsg::RedeemToken {
            token_id: "ckbtc".to_string(),
            receiver: "r1".to_string(),
            amount: 10,
            target_chain: "C".to_string(),
        },
    )
    .unwrap();
    let req = match &r.messages[0].callback {
        Some(PendingOp::Redeem(req)) => req.clone(),
        other => panic!("expected a redeem continuation, got {:?}", other),
    };
    let done = reply(&mut state, &env, PendingOp::Redeem(req.clone()), true).unwrap();
    assert!(done.messages.is_empty());
    assert_eq!(done.events.len(), 2);
    assert_eq!(
        done.events[0],
        Event::RedeemRequested {
            token_id: "ckbtc".to_string(),
            sender: "alice".to_string(),
            receiver: "r1".to_string(),
            amount: 10,
            target_chain: "C".to_string(),
        }
    );
    assert_eq!(done.events[1], Event::GenerateTicketRequested(req.clone()));
    let stored = state.ticket_requests.get(&req.seq).expect("request should be stored");
    assert_eq!(*stored, req);
}

#[test]
fn burn_failure_emits_event_and_stores_nothing() {
    let mut state = transmute_state();
    let env = host_env();
    let r = execute(
        &mut state,
        &env,
        &info("alice", vec![coin("FT", 6)]),
        ExecuteMsg::RedeemToken {
            token_id: "ckbtc".to_string(),
            receiver: "r1".to_string(),
            amount: 10,
            target_chain: "C".to_string(),
        },
    )
    .unwrap();
    let req = match &r.messages[0].callback {
        Some(PendingOp::Redeem(req)) => req.clone(),
        other => panic!("expected a redeem continuation, got {:?}", other),
    };
    let failed = reply(&mut state, &env, PendingOp::Redeem(req.clone()), false).unwrap();
    assert_eq!(failed.events, vec![Event::RedeemFailed]);
    assert!(state.ticket_requests.get(&req.seq).is_none());
}

#[test]
fn redeem_all_swaps_then_burns_with_fresh_sequence() {
    let mut state = transmute_state();
    let env = host_env();
    let r = execute(
        &mut state,
        &env,
        &info("alice", vec![coin("FT", 6), coin("allbtc", 30)]),
        ExecuteMsg::RedeemAllBTC {
            receiver: "r1".to_string(),
            amount: 30,
            target_chain: "C".to_string(),
        },
    )
    .unwrap();
    assert_eq!(
        r.messages[0].op,
        HostOp::Swap {
            pool_id: 9,
            in_denom: "allbtc".to_string(),
            in_amount: 30,
            out_denom: "factory/port1/ckbtc".to_string(),
            min_out_amount: 30,
        }
    );
    // the sequence number is drawn only when the swap has succeeded
    assert_eq!(state.generate_ticket_sequence, 0);
    let payload = match &r.messages[0].callback {
        Some(PendingOp::SwapAllbtcToCkbtc(p)) => p.clone(),
        other => panic!("expected a swap continuation, got {:?}", other),
    };
    assert_eq!(payload.fee_token, "FT");
    assert_eq!(payload.fee_amount, 6);
    let swapped =
        reply_success(&mut state, &env, PendingOp::SwapAllbtcToCkbtc(payload.clone())).unwrap();
    assert_eq!(state.generate_ticket_sequence, 1);
    assert_eq!(
        swapped.messages[0].op,
        HostOp::Burn {
            denom: "factory/port1/ckbtc".to_string(),
            amount: 30,
            source: "port1".to_string(),
        }
    );
    match &swapped.messages[0].callback {
        Some(PendingOp::Redeem(req)) => {
            assert_eq!(req.seq, 0);
            assert_eq!(req.token_id, "ckbtc");
            assert_eq!(req.sender, "alice");
        }
        other => panic!("expected a redeem continuation, got {:?}", other),
    }
    // the failing branch reports the original intent
    let failed =
        reply_error(&mut state, &env, PendingOp::SwapAllbtcToCkbtc(payload)).unwrap();
    assert_eq!(
        failed.events,
        vec![Event::SwapAllbtcFailed {
            sender: "alice".to_string(),
            receiver: "r1".to_string(),
            amount: 30,
            target_chain: "C".to_string(),
            fee_token: "FT".to_string(),
            fee_amount: 6,
        }]
    );
}

#[test]
fn failed_send_after_swap_fails_loudly() {
    let mut state = transmute_state();
    let env = host_env();
    let payload = omnity_port_cosmos::types::MintTokenPayload {
        ticket_id: "t1".to_string(),
        token_id: "ckbtc".to_string(),
        receiver: "alice".to_string(),
        amount: 50,
        transmuter: Some("allbtc".to_string()),
    };
    let r = reply(&mut state, &env, PendingOp::SendAllbtc(payload), false);
    assert!(matches!(r, Err(ContractError::ReplyError(_))));
}

#[test]
fn rune_identifier_round_trips_through_registry() {
    let mut state = transmute_state();
    let env = host_env();
    let external = "Bitcoin-runes-HOPE•YOU•GET•RICH".to_string();
    let canonical = "Bitcoin-runes-HOPE.YOU.GET.RICH".to_string();
    directive(
        &mut state,
        9,
        Directive::AddToken(Token {
            token_id: external.clone(),
            name: "rune".to_string(),
            symbol: "RICH".to_string(),
            decimals: 2,
            icon: None,
        }),
    );
    // the token list reaches the record under the canonical identifier
    let listed = get_token_list(&state).tokens;
    assert!(listed.iter().any(|t| t.token_id == canonical));
    assert!(listed.iter().all(|t| t.token_id != external));
    // an outbound ticket for it restores the original identifier
    let r = execute(
        &mut state,
        &env,
        &info("alice", vec![coin("FT", 6)]),
        ExecuteMsg::RedeemToken {
            token_id: external.clone(),
            receiver: "r1".to_string(),
            amount: 5,
            target_chain: "C".to_string(),
        },
    )
    .unwrap();
    match &r.messages[0].callback {
        Some(PendingOp::Redeem(req)) => {
            assert_eq!(req.token_id, external);
        }
        other => panic!("expected a redeem continuation, got {:?}", other),
    }
    // the burn itself uses the canonical factory denomination
    assert!(matches!(
        &r.messages[0].op,
        HostOp::Burn { denom, .. } if denom == "factory/port1/Bitcoin-runes-HOPE.YOU.GET.RICH"
    ));
}
