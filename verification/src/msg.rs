//! Messages the engine consumes and the answers its read accessors give.

use vstd::prelude::*;

use crate::route::{Directive, Token};
use crate::state::TxAction;

verus! {

/// Parameters of the initial state.
#[derive(Debug, Clone, PartialEq, Eq)]
pub struct InstantiateMsg {
    pub route: String,
    pub chain_id: String,
}

/// An inbound entry point invocation.
#[derive(Debug, Clone, PartialEq, Eq)]
pub enum ExecuteMsg {
    ExecDirective {
        seq: u64,
        directive: Directive,
    },
    PrivilegeMintToken {
        ticket_id: String,
        token_id: String,
        receiver: String,
        amount: u128,
        transmuter: Option<String>,
    },
    RedeemToken {
        token_id: String,
        receiver: String,
        amount: u128,
        target_chain: String,
    },
    RedeemAllBTC {
        receiver: String,
        amount: u128,
        target_chain: String,
    },
    GenerateTicket {
        token_id: String,
        sender: String,
        receiver: String,
        amount: u128,
        target_chain: String,
        action: TxAction,
        memo: Option<String>,
    },
    UpdateRoute {
        route: String,
    },
    RedeemSetting {
        token_id: String,
        target_chain: String,
        min_amount: u128,
    },
    UpdateToken {
        token_id: String,
        name: String,
        symbol: String,
        decimals: u8,
        icon: Option<String>,
    },
    RefundToken {
        denom: String,
        receiver: String,
        amount: u128,
    },
}

/// A read accessor request.
#[derive(Debug, Clone, PartialEq, Eq)]
pub enum QueryMsg {
    GetState {},
    GetTokenList {},
    GetFeeInfo {},
    GetTargetChainFee { target_chain: String },
}

/// The answer to a read accessor request.
pub enum QueryResponse {
    State(crate::state::State),
    TokenList(GetTokenResponse),
    FeeInfo(GetFeeResponse),
    TargetChainFee(GetTargetChainFeeResponse),
}

/// Resolved fee of one destination chain, nulls where unconfigured.
#[derive(Debug, Clone, PartialEq, Eq)]
pub struct GetTargetChainFeeResponse {
    pub target_chain: String,
    pub fee_token: Option<String>,
    pub fee_token_factor: Option<u128>,
    pub fee_amount: Option<u128>,
}

/// Every registered token.
#[derive(Debug, Clone, PartialEq, Eq)]
pub struct GetTokenResponse {
    pub tokens: Vec<Token>,
}

/// The fee configuration as a whole.
#[derive(Debug, Clone, PartialEq, Eq)]
pub struct GetFeeResponse {
    pub fee_token: Option<String>,
    pub fee_token_factor: Option<u128>,
    pub target_chain_factor: Vec<(String, u128)>,
}

} // verus!
