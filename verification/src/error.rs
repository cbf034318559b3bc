//! Why an invocation is rejected. A rejected invocation commits nothing:
//! every handler proves that on an error the state is unchanged.

use vstd::prelude::*;

use crate::types::{Coin, CoinView};

verus! {

/// The engine's error taxonomy.
#[derive(Debug, Clone, PartialEq, Eq)]
pub enum ContractError {
    /// The caller is neither the configured route nor the admin.
    Unauthorized,
    /// `AddToken` for an identifier that is already registered.
    TokenAleardyExist,
    /// The named token is not registered.
    TokenNotFound,
    /// The named token cannot be minted here.
    TokenUnsupportMint,
    /// The directive's sequence number was applied before.
    DirectiveAlreadyHandled,
    /// The ticket identifier was minted before.
    TicketAlreadyHandled,
    /// Fee token factor or chain factor is not configured.
    FeeHasNotSet,
    /// Required fee, attached fee, and the funds that were attached.
    IncorrectFee(u128, u128, Vec<Coin>),
    /// A chain-state toggle names an unknown chain.
    ChainNotFound,
    /// Configured minimum and the amount that was offered.
    RedeemAmountLessThanMinAmount(u128, u128),
    /// An internal invariant was violated; the message says which.
    CustomError(String),
    /// A continuation arrived that its step can make nothing of.
    ReplyError(String),
    /// The destination chain is not a registered counterparty.
    TargetChainNotFound,
    /// The destination chain is registered but deactivated.
    TargetChainDeactive,
    /// This chain itself is deactivated.
    ChainDeactive,
}

/// Mathematical image of a [`ContractError`].
#[verifier::ext_equal]
pub enum ErrorView {
    Unauthorized,
    TokenAleardyExist,
    TokenNotFound,
    TokenUnsupportMint,
    DirectiveAlreadyHandled,
    TicketAlreadyHandled,
    FeeHasNotSet,
    IncorrectFee(u128, u128, Seq<CoinView>),
    ChainNotFound,
    RedeemAmountLessThanMinAmount(u128, u128),
    CustomError(Seq<char>),
    ReplyError(Seq<char>),
    TargetChainNotFound,
    TargetChainDeactive,
    ChainDeactive,
}

impl View for ContractError {
    type V = ErrorView;

    open spec fn view(&self) -> ErrorView {
        match self {
            ContractError::Unauthorized => ErrorView::Unauthorized,
            ContractError::TokenAleardyExist => ErrorView::TokenAleardyExist,
            ContractError::TokenNotFound => ErrorView::TokenNotFound,
            ContractError::TokenUnsupportMint => ErrorView::TokenUnsupportMint,
            ContractError::DirectiveAlreadyHandled => ErrorView::DirectiveAlreadyHandled,
            ContractError::TicketAlreadyHandled => ErrorView::TicketAlreadyHandled,
            ContractError::FeeHasNotSet => ErrorView::FeeHasNotSet,
            ContractError::IncorrectFee(required, attached, funds) => ErrorView::IncorrectFee(
                *required,
                *attached,
                funds@.map_values(|c: Coin| c@),
            ),
            ContractError::ChainNotFound => ErrorView::ChainNotFound,
            ContractError::RedeemAmountLessThanMinAmount(min, got) => {
                ErrorView::RedeemAmountLessThanMinAmount(*min, *got)
            }
            ContractError::CustomError(msg) => ErrorView::CustomError(msg@),
            ContractError::ReplyError(msg) => ErrorView::ReplyError(msg@),
            ContractError::TargetChainNotFound => ErrorView::TargetChainNotFound,
            ContractError::TargetChainDeactive => ErrorView::TargetChainDeactive,
            ContractError::ChainDeactive => ErrorView::ChainDeactive,
        }
    }
}

} // verus!
