//! Exercises the execute entry points on concrete values.

use omnity_port_cosmos::contract::{
    calculate_fee, exec_directive, execute, get_fee_info, get_target_chain_fee, get_token_list,
    instantiate, migrate_guard, token_denom,
};
use omnity_port_cosmos::error::ContractError;
use omnity_port_cosmos::msg::{ExecuteMsg, InstantiateMsg};
use omnity_port_cosmos::route::{
    Chain, ChainState, ChainType, Directive, Factor, FeeTokenFactor, TargetChainFactor, Token,
    ToggleAction, ToggleState,
};
use omnity_port_cosmos::state::{normalize_token_id, State, TxAction};
use omnity_port_cosmos::types::{
    Coin, Dispatch, Event, HostEnv, HostOp, MessageInfo, PendingOp,
};

fn host_env() -> HostEnv {
    HostEnv {
        contract: "port1".to_string(),
        time_nanos: 1_700_000_000_000_000_000,
        block_height: 42,
    }
}

fn info(sender: &str, funds: Vec<Coin>) -> MessageInfo {
    MessageInfo { sender: sender.to_string(), funds }
}

fn coin(denom: &str, amount: u128) -> Coin {
    Coin { denom: denom.to_string(), amount }
}

fn fresh_state() -> State {
    instantiate(
        InstantiateMsg { route: "route1".to_string(), chain_id: "osmosis".to_string() },
        &info("admin1", vec![]),
    )
}

fn plain_token(id: &str) -> Token {
    Token {
        token_id: id.to_string(),
        name: format!("{} name", id),
        symbol: id.to_string(),
        decimals: 8,
        icon: None,
    }
}

fn active_chain(id: &str) -> Chain {
    Chain {
        chain_id: id.to_string(),
        canister_id: "canister".to_string(),
        chain_type: ChainType::ExecutionChain,
        chain_state: ChainState::Active,
        contract_address: None,
        counterparties: None,
        fee_token: None,
    }
}

fn directive(state: &mut State, seq: u64, d: Directive) {
    let env = host_env();
    let msg_info = info("route1", vec![]);
    exec_directive(state, &env, &msg_info, seq, d).expect("directive should apply");
}

/// Registers token "X", chain "C" (active), fee token factor 2 and chain
/// factor 3, so the required fee towards "C" is 6.
fn configured_state() -> State {
    let mut state = fresh_state();
    directive(&mut state, 1, Directive::AddToken(plain_token("X")));
    directive(&mut state, 2, Directive::AddChain(active_chain("C")));
    directive(
        &mut state,
        3,
        Directive::UpdateFee(Factor::UpdateFeeTokenFactor(FeeTokenFactor {
            fee_token: "FT".to_string(),
            fee_token_factor: 2,
        })),
    );
    directive(
        &mut state,
        4,
        Directive::UpdateFee(Factor::UpdateTargetChainFactor(TargetChainFactor {
            target_chain_id: "C".to_string(),
            target_chain_factor: 3,
        })),
    );
    state
}

#[test]
fn count() {
    let mut state = fresh_state();
    let env = host_env();
    let msg_info = info("route1", vec![]);
    let token = Token {
        token_id: "Bitcoin-runes-HOPE•YOU•GET•RICH".to_string(),
        name: "HOPE•YOU•GET•RICH".to_string(),
        symbol: "RICH".to_string(),
        decimals: 2,
        icon: None,
    };
    let r = execute(
        &mut state,
        &env,
        &msg_info,
        ExecuteMsg::ExecDirective { seq: 1, directive: Directive::AddToken(token) },
    );
    assert!(r.is_ok());
}

#[test]
fn token_denom_builds_factory_path() {
    assert_eq!(
        token_denom("port1".to_string(), "X".to_string()),
        "factory/port1/X".to_string()
    );
}

#[test]
fn normalization_replaces_separator() {
    assert_eq!(
        normalize_token_id(&"Bitcoin-runes-HOPE•YOU•GET•RICH".to_string()),
        "Bitcoin-runes-HOPE.YOU.GET.RICH".to_string()
    );
    assert_eq!(normalize_token_id(&"plain".to_string()), "plain".to_string());
}

#[test]
fn directive_applied_twice_fails_and_changes_nothing() {
    let mut state = fresh_state();
    let env = host_env();
    let msg_info = info("route1", vec![]);
    let first = exec_directive(
        &mut state,
        &env,
        &msg_info,
        7,
        Directive::AddToken(plain_token("X")),
    );
    assert!(first.is_ok());
    let tokens_before = get_token_list(&state).tokens;
    let second = exec_directive(
        &mut state,
        &env,
        &msg_info,
        7,
        Directive::AddToken(plain_token("Y")),
    );
    assert!(matches!(second, Err(ContractError::DirectiveAlreadyHandled)));
    assert_eq!(get_token_list(&state).tokens, tokens_before);
}

#[test]
fn add_token_twice_fails() {
    let mut state = fresh_state();
    let env = host_env();
    let msg_info = info("route1", vec![]);
    directive(&mut state, 1, Directive::AddToken(plain_token("X")));
    let again = exec_directive(
        &mut state,
        &env,
        &msg_info,
        2,
        Directive::AddToken(plain_token("X")),
    );
    assert!(matches!(again, Err(ContractError::TokenAleardyExist)));
}

#[test]
fn add_token_dispatches_create_denom_and_metadata() {
    let mut state = fresh_state();
    let env = host_env();
    let msg_info = info("route1", vec![]);
    let r = exec_directive(
        &mut state,
        &env,
        &msg_info,
        1,
        Directive::AddToken(plain_token("X")),
    )
    .unwrap();
    assert_eq!(r.messages.len(), 2);
    assert_eq!(
        r.messages[0],
        Dispatch {
            op: HostOp::CreateDenom { subdenom: "X".to_string() },
            callback: None,
        }
    );
    assert!(matches!(
        &r.messages[1].op,
        HostOp::SetDenomMetadata { base_denom, .. } if base_denom == "factory/port1/X"
    ));
    assert_eq!(r.events, vec![Event::DirectiveExecuted { seq: 1 }]);
}

#[test]
fn directive_from_stranger_is_unauthorized() {
    let mut state = fresh_state();
    let env = host_env();
    let msg_info = info("someone", vec![]);
    let r = exec_directive(
        &mut state,
        &env,
        &msg_info,
        1,
        Directive::AddToken(plain_token("X")),
    );
    assert!(matches!(r, Err(ContractError::Unauthorized)));
}

#[test]
fn update_unknown_token_directive_fails() {
    let mut state = fresh_state();
    let env = host_env();
    let msg_info = info("route1", vec![]);
    let r = exec_directive(
        &mut state,
        &env,
        &msg_info,
        1,
        Directive::UpdateToken(plain_token("X")),
    );
    assert!(matches!(r, Err(ContractError::TokenNotFound)));
}

#[test]
fn toggle_unknown_chain_fails() {
    let mut state = fresh_state();
    let env = host_env();
    let msg_info = info("route1", vec![]);
    let r = exec_directive(
        &mut state,
        &env,
        &msg_info,
        1,
        Directive::ToggleChainState(ToggleState {
            chain_id: "nowhere".to_string(),
            action: ToggleAction::Deactivate,
        }),
    );
    assert!(matches!(r, Err(ContractError::ChainNotFound)));
}

#[test]
fn toggle_self_deactivates_engine() {
    let mut state = configured_state();
    let env = host_env();
    directive(
        &mut state,
        5,
        Directive::ToggleChainState(ToggleState {
            chain_id: "osmosis".to_string(),
            action: ToggleAction::Deactivate,
        }),
    );
    assert_eq!(state.chain_state, ChainState::Deactive);
    let r = execute(
        &mut state,
        &env,
        &info("anyone", vec![]),
        ExecuteMsg::RedeemToken {
            token_id: "X".to_string(),
            receiver: "r1".to_string(),
            amount: 10,
            target_chain: "C".to_string(),
        },
    );
    assert!(matches!(r, Err(ContractError::ChainDeactive)));
}

#[test]
fn toggle_counterparty_deactivates_it() {
    let mut state = configured_state();
    let env = host_env();
    directive(
        &mut state,
        5,
        Directive::ToggleChainState(ToggleState {
            chain_id: "C".to_string(),
            action: ToggleAction::Deactivate,
        }),
    );
    let r = execute(
        &mut state,
        &env,
        &info("anyone", vec![coin("FT", 6)]),
        ExecuteMsg::RedeemToken {
            token_id: "X".to_string(),
            receiver: "r1".to_string(),
            amount: 10,
            target_chain: "C".to_string(),
        },
    );
    assert!(matches!(r, Err(ContractError::TargetChainDeactive)));
}

#[test]
fn fee_is_product_of_factors() {
    let state = configured_state();
    assert_eq!(calculate_fee(&state, &"C".to_string()), Ok(6));
    let resolved = get_target_chain_fee(&state, "C".to_string());
    assert_eq!(resolved.fee_token, Some("FT".to_string()));
    assert_eq!(resolved.fee_token_factor, Some(2));
    assert_eq!(resolved.fee_amount, Some(6));
}

#[test]
fn fee_unset_is_reported() {
    let mut state = fresh_state();
    directive(&mut state, 1, Directive::AddToken(plain_token("X")));
    directive(&mut state, 2, Directive::AddChain(active_chain("C")));
    assert!(matches!(
        calculate_fee(&state, &"C".to_string()),
        Err(ContractError::FeeHasNotSet)
    ));
    let resolved = get_target_chain_fee(&state, "C".to_string());
    assert_eq!(resolved.fee_token, None);
    assert_eq!(resolved.fee_amount, None);
    let env = host_env();
    let r = execute(
        &mut state,
        &env,
        &info("anyone", vec![]),
        ExecuteMsg::RedeemToken {
            token_id: "X".to_string(),
            receiver: "r1".to_string(),
            amount: 10,
            target_chain: "C".to_string(),
        },
    );
    assert!(matches!(r, Err(ContractError::FeeHasNotSet)));
}

#[test]
fn wrong_fee_is_rejected_exactly() {
    let mut state = configured_state();
    let env = host_env();
    let r = execute(
        &mut state,
        &env,
        &info("anyone", vec![coin("FT", 5)]),
        ExecuteMsg::RedeemToken {
            token_id: "X".to_string(),
            receiver: "r1".to_string(),
            amount: 10,
            target_chain: "C".to_string(),
        },
    );
    match r {
        Err(ContractError::IncorrectFee(required, attached, funds)) => {
            assert_eq!(required, 6);
            assert_eq!(attached, 5);
            assert_eq!(funds, vec![coin("FT", 5)]);
        }
        other => panic!("expected IncorrectFee, got {:?}", other),
    }
    assert_eq!(state.generate_ticket_sequence, 0);
    let overpaid = execute(
        &mut state,
        &env,
        &info("anyone", vec![coin("FT", 7)]),
        ExecuteMsg::RedeemToken {
            token_id: "X".to_string(),
            receiver: "r1".to_string(),
            amount: 10,
            target_chain: "C".to_string(),
        },
    );
    assert!(matches!(overpaid, Err(ContractError::IncorrectFee(6, 7, _))));
}

#[test]
fn fee_sums_attached_coins_of_fee_token() {
    let mut state = configured_state();
    let env = host_env();
    let r = execute(
        &mut state,
        &env,
        &info(
            "anyone",
            vec![coin("other", 50), coin("FT", 2), coin("FT", 4)],
        ),
        ExecuteMsg::RedeemToken {
            token_id: "X".to_string(),
            receiver: "r1".to_string(),
            amount: 10,
            target_chain: "C".to_string(),
        },
    );
    assert!(r.is_ok());
}

#[test]
fn redeem_consumes_increasing_sequence_numbers() {
    let mut state = configured_state();
    let env = host_env();
    let first = execute(
        &mut state,
        &env,
        &info("alice", vec![coin("FT", 6)]),
        ExecuteMsg::RedeemToken {
            token_id: "X".to_string(),
            receiver: "r1".to_string(),
            amount: 10,
            target_chain: "C".to_string(),
        },
    )
    .unwrap();
    let second = execute(
        &mut state,
        &env,
        &info("alice", vec![coin("FT", 6)]),
        ExecuteMsg::RedeemToken {
            token_id: "X".to_string(),
            receiver: "r2".to_string(),
            amount: 11,
            target_chain: "C".to_string(),
        },
    )
    .unwrap();
    let seq_of = |resp: &omnity_port_cosmos::types::Response| -> u64 {
        match &resp.messages[0].callback {
            Some(PendingOp::Redeem(req)) => req.seq,
            other => panic!("expected a redeem continuation, got {:?}", other),
        }
    };
    assert_eq!(seq_of(&first), 0);
    assert_eq!(seq_of(&second), 1);
    assert_eq!(state.generate_ticket_sequence, 2);
}

#[test]
fn redeem_burns_and_records_fee() {
    let mut state = configured_state();
    let env = host_env();
    let r = execute(
        &mut state,
        &env,
        &info("alice", vec![coin("FT", 6)]),
        ExecuteMsg::RedeemToken {
            token_id: "X".to_string(),
            receiver: "r1".to_string(),
            amount: 10,
            target_chain: "C".to_string(),
        },
    )
    .unwrap();
    assert_eq!(r.messages.len(), 1);
    assert_eq!(
        r.messages[0].op,
        HostOp::Burn {
            denom: "factory/port1/X".to_string(),
            amount: 10,
            source: "alice".to_string(),
        }
    );
    match &r.messages[0].callback {
        Some(PendingOp::Redeem(req)) => {
            assert_eq!(req.seq, 0);
            assert_eq!(req.target_chain_id, "C");
            assert_eq!(req.sender, "alice");
            assert_eq!(req.receiver, "r1");
            assert_eq!(req.token_id, "X");
            assert_eq!(req.amount, 10);
            assert_eq!(req.fee_token, "FT");
            assert_eq!(req.fee_amount, 6);
        }
        other => panic!("expected a redeem continuation, got {:?}", other),
    }
}

#[test]
fn redeem_unknown_token_fails() {
    let mut state = configured_state();
    let env = host_env();
    let r = execute(
        &mut state,
        &env,
        &info("alice", vec![coin("FT", 6)]),
        ExecuteMsg::RedeemToken {
            token_id: "missing".to_string(),
            receiver: "r1".to_string(),
            amount: 10,
            target_chain: "C".to_string(),
        },
    );
    assert!(matches!(r, Err(ContractError::TokenNotFound)));
}

#[test]
fn redeem_to_unknown_chain_fails() {
    let mut state = configured_state();
    let env = host_env();
    let r = execute(
        &mut state,
        &env,
        &info("alice", vec![coin("FT", 6)]),
        ExecuteMsg::RedeemToken {
            token_id: "X".to_string(),
            receiver: "r1".to_string(),
            amount: 10,
            target_chain: "elsewhere".to_string(),
        },
    );
    assert!(matches!(r, Err(ContractError::TargetChainNotFound)));
}

#[test]
fn redeem_below_minimum_fails() {
    let mut state = configured_state();
    let env = host_env();
    let set = execute(
        &mut state,
        &env,
        &info("admin1", vec![]),
        ExecuteMsg::RedeemSetting {
            token_id: "X".to_string(),
            target_chain: "C".to_string(),
            min_amount: 100,
        },
    );
    assert!(set.is_ok());
    let r = execute(
        &mut state,
        &env,
        &info("alice", vec![coin("FT", 6)]),
        ExecuteMsg::RedeemToken {
            token_id: "X".to_string(),
            receiver: "r1".to_string(),
            amount: 99,
            target_chain: "C".to_string(),
        },
    );
    assert!(matches!(
        r,
        Err(ContractError::RedeemAmountLessThanMinAmount(100, 99))
    ));
    let enough = execute(
        &mut state,
        &env,
        &info("alice", vec![coin("FT", 6)]),
        ExecuteMsg::RedeemToken {
            token_id: "X".to_string(),
            receiver: "r1".to_string(),
            amount: 100,
            target_chain: "C".to_string(),
        },
    );
    assert!(enough.is_ok());
}

#[test]
fn generate_ticket_records_action_and_memo() {
    let mut state = configured_state();
    let env = host_env();
    let r = execute(
        &mut state,
        &env,
        &info("alice", vec![coin("FT", 6)]),
        ExecuteMsg::GenerateTicket {
            token_id: "X".to_string(),
            sender: "origin".to_string(),
            receiver: "r1".to_string(),
            amount: 10,
            target_chain: "C".to_string(),
            action: TxAction::Transfer,
            memo: Some("note".to_string()),
        },
    )
    .unwrap();
    match &r.messages[0].callback {
        Some(PendingOp::GenerateTicket(req)) => {
            assert_eq!(req.sender, "origin");
            assert_eq!(req.action, TxAction::Transfer);
            assert_eq!(req.memo, Some("note".to_string()));
        }
        other => panic!("expected a generate-ticket continuation, got {:?}", other),
    }
}

#[test]
fn update_route_is_admin_only() {
    let mut state = fresh_state();
    let env = host_env();
    let refused = execute(
        &mut state,
        &env,
        &info("route1", vec![]),
        ExecuteMsg::UpdateRoute { route: "route2".to_string() },
    );
    assert!(matches!(refused, Err(ContractError::Unauthorized)));
    let done = execute(
        &mut state,
        &env,
        &info("admin1", vec![]),
        ExecuteMsg::UpdateRoute { route: "route2".to_string() },
    )
    .unwrap();
    assert!(done
        .events
        .contains(&Event::RouteUpdated { new_route: "route2".to_string() }));
    assert_eq!(state.route, "route2");
}

#[test]
fn update_token_entry_creates_missing_record() {
    let mut state = fresh_state();
    let env = host_env();
    let r = execute(
        &mut state,
        &env,
        &info("admin1", vec![]),
        ExecuteMsg::UpdateToken {
            token_id: "Z".to_string(),
            name: "Zed".to_string(),
            symbol: "Z".to_string(),
            decimals: 6,
            icon: None,
        },
    );
    assert!(r.is_ok());
    let listed = get_token_list(&state).tokens;
    assert_eq!(listed.len(), 1);
    assert_eq!(listed[0].name, "Zed");
}

#[test]
fn refund_dispatches_bank_send() {
    let mut state = fresh_state();
    let env = host_env();
    let r = execute(
        &mut state,
        &env,
        &info("admin1", vec![]),
        ExecuteMsg::RefundToken {
            denom: "uosmo".to_string(),
            receiver: "alice".to_string(),
            amount: 25,
        },
    )
    .unwrap();
    assert_eq!(
        r.messages[0].op,
        HostOp::BankSend {
            denom: "uosmo".to_string(),
            amount: 25,
            recipient: "alice".to_string(),
        }
    );
}

#[test]
fn fee_info_reports_configuration() {
    let state = configured_state();
    let fee_info = get_fee_info(&state);
    assert_eq!(fee_info.fee_token, Some("FT".to_string()));
    assert_eq!(fee_info.fee_token_factor, Some(2));
    assert_eq!(fee_info.target_chain_factor, vec![("C".to_string(), 3)]);
}

#[test]
fn migrate_guard_checks_name_and_version() {
    let name = "port".to_string();
    assert!(migrate_guard(&name, &name, (0, 1, 0), (0, 2, 0)).is_ok());
    assert!(matches!(
        migrate_guard(&name, &"other".to_string(), (0, 1, 0), (0, 2, 0)),
        Err(ContractError::CustomError(_))
    ));
    assert!(matches!(
        migrate_guard(&name, &name, (0, 2, 0), (0, 2, 0)),
        Err(ContractError::CustomError(_))
    ));
    assert!(matches!(
        migrate_guard(&name, &name, (1, 0, 0), (0, 9, 9)),
        Err(ContractError::CustomError(_))
    ));
}
