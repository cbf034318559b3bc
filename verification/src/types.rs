//! Values crossing the boundary to the host ledger: attached funds,
//! dispatched operations, continuation payloads, and emitted events.

use vstd::prelude::*;

use crate::state::{GenerateTicketReq, GenerateTicketReqView};

verus! {

/// An amount of one denomination.
#[derive(Debug, Clone, PartialEq, Eq)]
pub struct Coin {
    pub denom: String,
    pub amount: u128,
}

/// Mathematical image of a [`Coin`].
#[verifier::ext_equal]
pub struct CoinView {
    pub denom: Seq<char>,
    pub amount: u128,
}

impl View for Coin {
    type V = CoinView;

    open spec fn view(&self) -> CoinView {
        CoinView { denom: self.denom@, amount: self.amount }
    }
}

/// Who sent the current message and what funds ride along with it.
#[derive(Debug, Clone, PartialEq, Eq)]
pub struct MessageInfo {
    pub sender: String,
    pub funds: Vec<Coin>,
}

/// Mathematical image of a [`MessageInfo`].
#[verifier::ext_equal]
pub struct MessageInfoView {
    pub sender: Seq<char>,
    pub funds: Seq<CoinView>,
}

impl View for MessageInfo {
    type V = MessageInfoView;

    open spec fn view(&self) -> MessageInfoView {
        MessageInfoView {
            sender: self.sender@,
            funds: self.funds@.map_values(|c: Coin| c@),
        }
    }
}

/// What the host tells the engine about the current invocation.
#[derive(Debug, Clone, PartialEq, Eq)]
pub struct HostEnv {
    pub contract: String,
    pub time_nanos: u64,
    pub block_height: u64,
}

/// Mathematical image of a [`HostEnv`].
#[verifier::ext_equal]
pub struct HostEnvView {
    pub contract: Seq<char>,
    pub time_nanos: u64,
    pub block_height: u64,
}

impl View for HostEnv {
    type V = HostEnvView;

    open spec fn view(&self) -> HostEnvView {
        HostEnvView {
            contract: self.contract@,
            time_nanos: self.time_nanos,
            block_height: self.block_height,
        }
    }
}

/// Continuation context of a mint saga, carried across the asynchronous
/// gap between dispatching the mint and observing its outcome.
#[derive(Debug, Clone, PartialEq, Eq)]
pub struct MintTokenPayload {
    pub ticket_id: String,
    pub token_id: String,
    pub receiver: String,
    pub amount: u128,
    pub transmuter: Option<String>,
}

/// Mathematical image of a [`MintTokenPayload`].
#[verifier::ext_equal]
pub struct MintTokenPayloadView {
    pub ticket_id: Seq<char>,
    pub token_id: Seq<char>,
    pub receiver: Seq<char>,
    pub amount: u128,
    pub transmuter: Option<Seq<char>>,
}

impl View for MintTokenPayload {
    type V = MintTokenPayloadView;

    open spec fn view(&self) -> MintTokenPayloadView {
        MintTokenPayloadView {
            ticket_id: self.ticket_id@,
            token_id: self.token_id@,
            receiver: self.receiver@,
            amount: self.amount,
            transmuter: self.transmuter.deep_view(),
        }
    }
}

/// Continuation context of a redeem that first swaps the pooled asset
/// back into the bridged one.
#[derive(Debug, Clone, PartialEq, Eq)]
pub struct RedeemAllBTC {
    pub sender: String,
    pub receiver: String,
    pub amount: u128,
    pub target_chain: String,
    pub fee_token: String,
    pub fee_amount: u128,
}

/// Mathematical image of a [`RedeemAllBTC`].
#[verifier::ext_equal]
pub struct RedeemAllBTCView {
    pub sender: Seq<char>,
    pub receiver: Seq<char>,
    pub amount: u128,
    pub target_chain: Seq<char>,
    pub fee_token: Seq<char>,
    pub fee_amount: u128,
}

impl View for RedeemAllBTC {
    type V = RedeemAllBTCView;

    open spec fn view(&self) -> RedeemAllBTCView {
        RedeemAllBTCView {
            sender: self.sender@,
            receiver: self.receiver@,
            amount: self.amount,
            target_chain: self.target_chain@,
            fee_token: self.fee_token@,
            fee_amount: self.fee_amount,
        }
    }
}

/// A native financial primitive the engine asks the host ledger to run.
#[derive(Debug, Clone, PartialEq, Eq)]
pub enum HostOp {
    CreateDenom { subdenom: String },
    SetDenomMetadata {
        base_denom: String,
        name: String,
        symbol: String,
        decimals: u8,
        icon: String,
    },
    Mint { denom: String, amount: u128, recipient: String },
    Burn { denom: String, amount: u128, source: String },
    Swap {
        pool_id: u64,
        in_denom: String,
        in_amount: u128,
        out_denom: String,
        min_out_amount: u128,
    },
    BankSend { denom: String, amount: u128, recipient: String },
}

/// Mathematical image of a [`HostOp`].
#[verifier::ext_equal]
pub enum HostOpView {
    CreateDenom { subdenom: Seq<char> },
    SetDenomMetadata {
        base_denom: Seq<char>,
        name: Seq<char>,
        symbol: Seq<char>,
        decimals: u8,
        icon: Seq<char>,
    },
    Mint { denom: Seq<char>, amount: u128, recipient: Seq<char> },
    Burn { denom: Seq<char>, amount: u128, source: Seq<char> },
    Swap {
        pool_id: u64,
        in_denom: Seq<char>,
        in_amount: u128,
        out_denom: Seq<char>,
        min_out_amount: u128,
    },
    BankSend { denom: Seq<char>, amount: u128, recipient: Seq<char> },
}

impl View for HostOp {
    type V = HostOpView;

    open spec fn view(&self) -> HostOpView {
        match self {
            HostOp::CreateDenom { subdenom } => HostOpView::CreateDenom {
                subdenom: subdenom@,
            },
            HostOp::SetDenomMetadata { base_denom, name, symbol, decimals, icon } => {
                HostOpView::SetDenomMetadata {
                    base_denom: base_denom@,
                    name: name@,
                    symbol: symbol@,
                    decimals: *decimals,
                    icon: icon@,
                }
            }
            HostOp::Mint { denom, amount, recipient } => HostOpView::Mint {
                denom: denom@,
                amount: *amount,
                recipient: recipient@,
            },
            HostOp::Burn { denom, amount, source } => HostOpView::Burn {
                denom: denom@,
                amount: *amount,
                source: source@,
            },
            HostOp::Swap { pool_id, in_denom, in_amount, out_denom, min_out_amount } => {
                HostOpView::Swap {
                    pool_id: *pool_id,
                    in_denom: in_denom@,
                    in_amount: *in_amount,
                    out_denom: out_denom@,
                    min_out_amount: *min_out_amount,
                }
            }
            HostOp::BankSend { denom, amount, recipient } => HostOpView::BankSend {
                denom: denom@,
                amount: *amount,
                recipient: recipient@,
            },
        }
    }
}

/// The pending step of an in-flight saga, together with the continuation
/// context the host hands back with the step's outcome.
#[derive(Debug, Clone, PartialEq, Eq)]
pub enum PendingOp {
    Redeem(GenerateTicketReq),
    GenerateTicket(GenerateTicketReq),
    MintToken(MintTokenPayload),
    SwapCkbtcToAllbtc(MintTokenPayload),
    SwapAllbtcToCkbtc(RedeemAllBTC),
    SendAllbtc(MintTokenPayload),
}

/// Mathematical image of a [`PendingOp`].
#[verifier::ext_equal]
pub enum PendingOpView {
    Redeem(GenerateTicketReqView),
    GenerateTicket(GenerateTicketReqView),
    MintToken(MintTokenPayloadView),
    SwapCkbtcToAllbtc(MintTokenPayloadView),
    SwapAllbtcToCkbtc(RedeemAllBTCView),
    SendAllbtc(MintTokenPayloadView),
}

impl View for PendingOp {
    type V = PendingOpView;

    open spec fn view(&self) -> PendingOpView {
        match self {
            PendingOp::Redeem(r) => PendingOpView::Redeem(r@),
            PendingOp::GenerateTicket(r) => PendingOpView::GenerateTicket(r@),
            PendingOp::MintToken(p) => PendingOpView::MintToken(p@),
            PendingOp::SwapCkbtcToAllbtc(p) => PendingOpView::SwapCkbtcToAllbtc(p@),
            PendingOp::SwapAllbtcToCkbtc(p) => PendingOpView::SwapAllbtcToCkbtc(p@),
            PendingOp::SendAllbtc(p) => PendingOpView::SendAllbtc(p@),
        }
    }
}

impl DeepView for PendingOp {
    type V = PendingOpView;

    open spec fn deep_view(&self) -> PendingOpView {
        self.view()
    }
}

/// One operation handed to the host: fire-and-forget when `callback` is
/// `None`, resumed through the saga engine with exactly that pending step
/// otherwise.
#[derive(Debug, Clone, PartialEq, Eq)]
pub struct Dispatch {
    pub op: HostOp,
    pub callback: Option<PendingOp>,
}

/// Mathematical image of a [`Dispatch`].
#[verifier::ext_equal]
pub struct DispatchView {
    pub op: HostOpView,
    pub callback: Option<PendingOpView>,
}

impl View for Dispatch {
    type V = DispatchView;

    open spec fn view(&self) -> DispatchView {
        DispatchView { op: self.op@, callback: self.callback.deep_view() }
    }
}

/// An observable event of one invocation.
#[derive(Debug, Clone, PartialEq, Eq)]
pub enum Event {
    ExecuteMsgHandled { contract: String },
    DirectiveExecuted { seq: u64 },
    TokenMinted {
        ticket_id: String,
        token_id: String,
        receiver: String,
        amount: u128,
    },
    RouteUpdated { new_route: String },
    RedeemSettingUpdated {
        token_id: String,
        target_chain: String,
        min_amount: u128,
    },
    RedeemRequested {
        token_id: String,
        sender: String,
        receiver: String,
        amount: u128,
        target_chain: String,
    },
    GenerateTicketRequested(GenerateTicketReq),
    RedeemFailed,
    GenerateTicketFailed,
    SwapCkbtcFailed {
        ticket_id: String,
        receiver: String,
        amount: u128,
    },
    SwapAllbtcFailed {
        sender: String,
        receiver: String,
        amount: u128,
        target_chain: String,
        fee_token: String,
        fee_amount: u128,
    },
    RefundRequested {
        denom: String,
        receiver: String,
        amount: u128,
    },
}

/// Mathematical image of an [`Event`].
#[verifier::ext_equal]
pub enum EventView {
    ExecuteMsgHandled { contract: Seq<char> },
    DirectiveExecuted { seq: u64 },
    TokenMinted {
        ticket_id: Seq<char>,
        token_id: Seq<char>,
        receiver: Seq<char>,
        amount: u128,
    },
    RouteUpdated { new_route: Seq<char> },
    RedeemSettingUpdated {
        token_id: Seq<char>,
        target_chain: Seq<char>,
        min_amount: u128,
    },
    RedeemRequested {
        token_id: Seq<char>,
        sender: Seq<char>,
        receiver: Seq<char>,
        amount: u128,
        target_chain: Seq<char>,
    },
    GenerateTicketRequested(GenerateTicketReqView),
    RedeemFailed,
    GenerateTicketFailed,
    SwapCkbtcFailed {
        ticket_id: Seq<char>,
        receiver: Seq<char>,
        amount: u128,
    },
    SwapAllbtcFailed {
        sender: Seq<char>,
        receiver: Seq<char>,
        amount: u128,
        target_chain: Seq<char>,
        fee_token: Seq<char>,
        fee_amount: u128,
    },
    RefundRequested {
        denom: Seq<char>,
        receiver: Seq<char>,
        amount: u128,
    },
}

impl View for Event {
    type V = EventView;

    open spec fn view(&self) -> EventView {
        match self {
            Event::ExecuteMsgHandled { contract } => EventView::ExecuteMsgHandled {
                contract: contract@,
            },
            Event::DirectiveExecuted { seq } => EventView::DirectiveExecuted { seq: *seq },
            Event::TokenMinted { ticket_id, token_id, receiver, amount } => {
                EventView::TokenMinted {
                    ticket_id: ticket_id@,
                    token_id: token_id@,
                    receiver: receiver@,
                    amount: *amount,
                }
            }
            Event::RouteUpdated { new_route } => EventView::RouteUpdated {
                new_route: new_route@,
            },
            Event::RedeemSettingUpdated { token_id, target_chain, min_amount } => {
                EventView::RedeemSettingUpdated {
                    token_id: token_id@,
                    target_chain: target_chain@,
                    min_amount: *min_amount,
                }
            }
            Event::RedeemRequested { token_id, sender, receiver, amount, target_chain } => {
                EventView::RedeemRequested {
                    token_id: token_id@,
                    sender: sender@,
                    receiver: receiver@,
                    amount: *amount,
                    target_chain: target_chain@,
                }
            }
            Event::GenerateTicketRequested(req) => EventView::GenerateTicketRequested(req@),
            Event::RedeemFailed => EventView::RedeemFailed,
            Event::GenerateTicketFailed => EventView::GenerateTicketFailed,
            Event::SwapCkbtcFailed { ticket_id, receiver, amount } => {
                EventView::SwapCkbtcFailed {
                    ticket_id: ticket_id@,
                    receiver: receiver@,
                    amount: *amount,
                }
            }
            Event::SwapAllbtcFailed {
                sender,
                receiver,
                amount,
                target_chain,
                fee_token,
                fee_amount,
            } => EventView::SwapAllbtcFailed {
                sender: sender@,
                receiver: receiver@,
                amount: *amount,
                target_chain: target_chain@,
                fee_token: fee_token@,
                fee_amount: *fee_amount,
            },
            Event::RefundRequested { denom, receiver, amount } => EventView::RefundRequested {
                denom: denom@,
                receiver: receiver@,
                amount: *amount,
            },
        }
    }
}

/// What one successful invocation asks of the host: operations to
/// dispatch and events to emit.
#[derive(Debug, Clone, PartialEq, Eq)]
pub struct Response {
    pub messages: Vec<Dispatch>,
    pub events: Vec<Event>,
}

/// Mathematical image of a [`Response`].
#[verifier::ext_equal]
pub struct ResponseView {
    pub messages: Seq<DispatchView>,
    pub events: Seq<EventView>,
}

impl View for Response {
    type V = ResponseView;

    open spec fn view(&self) -> ResponseView {
        ResponseView {
            messages: self.messages@.map_values(|d: Dispatch| d@),
            events: self.events@.map_values(|e: Event| e@),
        }
    }
}

impl Response {
    pub fn new() -> (r: Response)
        ensures
            r@.messages == Seq::<DispatchView>::empty(),
            r@.events == Seq::<EventView>::empty(),
    {
        let r = Response { messages: Vec::new(), events: Vec::new() };
        proof {
            assert(r@.messages =~= Seq::<DispatchView>::empty());
            assert(r@.events =~= Seq::<EventView>::empty());
        }
        r
    }

    pub fn add_message(self, message: Dispatch) -> (r: Response)
        ensures
            r@.messages == self@.messages.push(message@),
            r@.events == self@.events,
    {
        let mut out = self;
        let ghost pre = out.messages@;
        out.messages.push(message);
        proof {
            assert(out.messages@.map_values(|d: Dispatch| d@)
                =~= pre.map_values(|d: Dispatch| d@).push(message@));
        }
        out
    }

    pub fn add_event(self, event: Event) -> (r: Response)
        ensures
            r@.events == self@.events.push(event@),
            r@.messages == self@.messages,
    {
        let mut out = self;
        let ghost pre = out.events@;
        out.events.push(event);
        proof {
            assert(out.events@.map_values(|e: Event| e@)
                =~= pre.map_values(|e: Event| e@).push(event@));
        }
        out
    }
}

/// Copies a list of strings; the copy reads the same.
pub fn clone_string_vec(v: &Vec<String>) -> (r: Vec<String>)
    ensures
        r@ == v@,
        r.deep_view() == v.deep_view(),
{
    let n = v.len();
    let mut out: Vec<String> = Vec::new();
    let mut i: usize = 0;
    while i < n
        invariant
            i <= n,
            n == v@.len(),
            out@.len() == i,
            forall|j: int| 0 <= j < i ==> out@[j] == v@[j],
        decreases n - i,
    {
        out.push(v[i].clone());
        i = i + 1;
    }
    proof {
        assert(out@ =~= v@);
        assert(out.deep_view() =~= v.deep_view());
    }
    out
}

/// Copies an optional list of strings; the copy reads the same.
pub fn clone_opt_string_vec(o: &Option<Vec<String>>) -> (r: Option<Vec<String>>)
    ensures
        r.deep_view() == o.deep_view(),
{
    match o {
        Some(v) => Some(clone_string_vec(v)),
        None => None,
    }
}

} // verus!
