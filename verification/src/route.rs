//! Tokens, counterparty chains and governance directives.

use vstd::prelude::*;

use crate::store::ExactClone;

verus! {

pub type ChainId = String;

pub type TokenId = String;

/// A registered token: identity is `token_id`.
#[derive(Debug, Clone, PartialEq, Eq)]
pub struct Token {
    pub token_id: String,
    pub name: String,
    pub symbol: String,
    pub decimals: u8,
    pub icon: Option<String>,
}

/// Mathematical image of a [`Token`].
#[verifier::ext_equal]
pub struct TokenView {
    pub token_id: Seq<char>,
    pub name: Seq<char>,
    pub symbol: Seq<char>,
    pub decimals: u8,
    pub icon: Option<Seq<char>>,
}

impl View for Token {
    type V = TokenView;

    open spec fn view(&self) -> TokenView {
        TokenView {
            token_id: self.token_id@,
            name: self.name@,
            symbol: self.symbol@,
            decimals: self.decimals,
            icon: self.icon.deep_view(),
        }
    }
}

impl ExactClone for Token {
    fn exact_clone(&self) -> (r: Self) {
        Token {
            token_id: self.token_id.clone(),
            name: self.name.clone(),
            symbol: self.symbol.clone(),
            decimals: self.decimals,
            icon: self.icon.exact_clone(),
        }
    }
}

/// Whether a chain currently accepts traffic.
#[derive(Debug, Clone, Copy, PartialEq, Eq, Structural)]
pub enum ChainState {
    Active,
    Deactive,
}

/// Which side of a bridge the chain plays.
#[derive(Debug, Clone, Copy, PartialEq, Eq, Structural)]
pub enum ChainType {
    SettlementChain,
    ExecutionChain,
}

/// A counterparty chain record.
#[derive(Debug, Clone, PartialEq, Eq)]
pub struct Chain {
    pub chain_id: ChainId,
    pub canister_id: String,
    pub chain_type: ChainType,
    pub chain_state: ChainState,
    pub contract_address: Option<String>,
    pub counterparties: Option<Vec<ChainId>>,
    pub fee_token: Option<TokenId>,
}

/// Mathematical image of a [`Chain`].
#[verifier::ext_equal]
pub struct ChainView {
    pub chain_id: Seq<char>,
    pub canister_id: Seq<char>,
    pub chain_type: ChainType,
    pub chain_state: ChainState,
    pub contract_address: Option<Seq<char>>,
    pub counterparties: Option<Seq<Seq<char>>>,
    pub fee_token: Option<Seq<char>>,
}

impl View for Chain {
    type V = ChainView;

    open spec fn view(&self) -> ChainView {
        ChainView {
            chain_id: self.chain_id@,
            canister_id: self.canister_id@,
            chain_type: self.chain_type,
            chain_state: self.chain_state,
            contract_address: self.contract_address.deep_view(),
            counterparties: self.counterparties.deep_view(),
            fee_token: self.fee_token.deep_view(),
        }
    }
}

/// Requested flip of a chain's state.
#[derive(Debug, Clone, Copy, PartialEq, Eq, Structural)]
pub enum ToggleAction {
    Activate,
    Deactivate,
}

/// The chain state an action asks for.
pub open spec fn toggled_state(action: ToggleAction) -> ChainState {
    match action {
        ToggleAction::Activate => ChainState::Active,
        ToggleAction::Deactivate => ChainState::Deactive,
    }
}

impl From<ToggleAction> for ChainState {
    fn from(value: ToggleAction) -> (r: ChainState) {
        match value {
            ToggleAction::Activate => ChainState::Active,
            ToggleAction::Deactivate => ChainState::Deactive,
        }
    }
}

impl vstd::std_specs::convert::FromSpecImpl<ToggleAction> for ChainState {
    open spec fn obeys_from_spec() -> bool {
        true
    }

    open spec fn from_spec(v: ToggleAction) -> ChainState {
        toggled_state(v)
    }
}

/// A directive that flips one chain's state.
#[derive(Debug, Clone, PartialEq, Eq)]
pub struct ToggleState {
    pub chain_id: ChainId,
    pub action: ToggleAction,
}

/// Mathematical image of a [`ToggleState`].
#[verifier::ext_equal]
pub struct ToggleStateView {
    pub chain_id: Seq<char>,
    pub action: ToggleAction,
}

impl View for ToggleState {
    type V = ToggleStateView;

    open spec fn view(&self) -> ToggleStateView {
        ToggleStateView { chain_id: self.chain_id@, action: self.action }
    }
}

/// New per-chain fee factor.
#[derive(Debug, Clone, PartialEq, Eq)]
pub struct TargetChainFactor {
    pub target_chain_id: ChainId,
    pub target_chain_factor: u128,
}

/// Mathematical image of a [`TargetChainFactor`].
#[verifier::ext_equal]
pub struct TargetChainFactorView {
    pub target_chain_id: Seq<char>,
    pub target_chain_factor: u128,
}

impl View for TargetChainFactor {
    type V = TargetChainFactorView;

    open spec fn view(&self) -> TargetChainFactorView {
        TargetChainFactorView {
            target_chain_id: self.target_chain_id@,
            target_chain_factor: self.target_chain_factor,
        }
    }
}

/// New fee token and global fee factor.
#[derive(Debug, Clone, PartialEq, Eq)]
pub struct FeeTokenFactor {
    pub fee_token: TokenId,
    pub fee_token_factor: u128,
}

/// Mathematical image of a [`FeeTokenFactor`].
#[verifier::ext_equal]
pub struct FeeTokenFactorView {
    pub fee_token: Seq<char>,
    pub fee_token_factor: u128,
}

impl View for FeeTokenFactor {
    type V = FeeTokenFactorView;

    open spec fn view(&self) -> FeeTokenFactorView {
        FeeTokenFactorView {
            fee_token: self.fee_token@,
            fee_token_factor: self.fee_token_factor,
        }
    }
}

/// A fee configuration change.
#[derive(Debug, Clone, PartialEq, Eq)]
pub enum Factor {
    UpdateTargetChainFactor(TargetChainFactor),
    UpdateFeeTokenFactor(FeeTokenFactor),
}

/// Mathematical image of a [`Factor`].
#[verifier::ext_equal]
pub enum FactorView {
    UpdateTargetChainFactor(TargetChainFactorView),
    UpdateFeeTokenFactor(FeeTokenFactorView),
}

impl View for Factor {
    type V = FactorView;

    open spec fn view(&self) -> FactorView {
        match self {
            Factor::UpdateTargetChainFactor(f) => FactorView::UpdateTargetChainFactor(f@),
            Factor::UpdateFeeTokenFactor(f) => FactorView::UpdateFeeTokenFactor(f@),
        }
    }
}

/// A governance configuration change, deduplicated by sequence number.
#[derive(Debug, Clone, PartialEq, Eq)]
pub enum Directive {
    AddChain(Chain),
    AddToken(Token),
    UpdateChain(Chain),
    UpdateToken(Token),
    ToggleChainState(ToggleState),
    UpdateFee(Factor),
}

/// Mathematical image of a [`Directive`].
#[verifier::ext_equal]
pub enum DirectiveView {
    AddChain(ChainView),
    AddToken(TokenView),
    UpdateChain(ChainView),
    UpdateToken(TokenView),
    ToggleChainState(ToggleStateView),
    UpdateFee(FactorView),
}

impl View for Directive {
    type V = DirectiveView;

    open spec fn view(&self) -> DirectiveView {
        match self {
            Directive::AddChain(c) => DirectiveView::AddChain(c@),
            Directive::AddToken(t) => DirectiveView::AddToken(t@),
            Directive::UpdateChain(c) => DirectiveView::UpdateChain(c@),
            Directive::UpdateToken(t) => DirectiveView::UpdateToken(t@),
            Directive::ToggleChainState(t) => DirectiveView::ToggleChainState(t@),
            Directive::UpdateFee(f) => DirectiveView::UpdateFee(f@),
        }
    }
}

} // verus!
