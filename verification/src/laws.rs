//! Laws of the engine, proved once and for all over the transition
//! functions that the handlers' contracts are stated with.

use vstd::prelude::*;

use crate::contract::{
    spec_attached_total, spec_calculate_fee, spec_check_fee, spec_check_target_chain,
    spec_exec_directive, spec_privilege_mint_token, spec_redeem_all_btc, spec_redeem_token,
};
use crate::error::ErrorView;
use crate::route::DirectiveView;
use crate::state::{canonical_id, RUNES_SEPARATOR, State, StateView};
use crate::types::{
    EventView, HostEnvView, HostOpView, MessageInfoView, MintTokenPayloadView, PendingOpView,
};
use crate::reply::spec_reply;

verus! {

/// A successful directive never hands governance around: route and
/// admin are what they were.
pub proof fn lemma_directive_preserves_governance(
    s: StateView,
    env: HostEnvView,
    sender: Seq<char>,
    seq: u64,
    d: DirectiveView,
)
    requires
        spec_exec_directive(s, env, sender, seq, d).1 is Ok,
    ensures
        spec_exec_directive(s, env, sender, seq, d).0.route == s.route,
        spec_exec_directive(s, env, sender, seq, d).0.admin == s.admin,
{
    match d {
        DirectiveView::AddChain(_) => {}
        DirectiveView::AddToken(_) => {}
        DirectiveView::UpdateChain(_) => {}
        DirectiveView::UpdateToken(_) => {}
        DirectiveView::ToggleChainState(_) => {}
        DirectiveView::UpdateFee(_) => {}
    }
}

/// Directive idempotency: after a directive has been applied, applying
/// the same sequence number again fails with `DirectiveAlreadyHandled`
/// and leaves the state exactly as the first application left it.
pub proof fn lemma_directive_idempotent(
    s: StateView,
    env: HostEnvView,
    sender: Seq<char>,
    seq: u64,
    d: DirectiveView,
)
    requires
        spec_exec_directive(s, env, sender, seq, d).1 is Ok,
    ensures
        ({
            let s1 = spec_exec_directive(s, env, sender, seq, d).0;
            let again = spec_exec_directive(s1, env, sender, seq, d);
            again.0 == s1 && again.1 == Err::<crate::types::ResponseView, ErrorView>(ErrorView::DirectiveAlreadyHandled)
        }),
{
    lemma_directive_preserves_governance(s, env, sender, seq, d);
    let s1 = spec_exec_directive(s, env, sender, seq, d).0;
    assert(s1.handled_directives.contains(seq));
}

/// Ticket idempotency: after a ticket has been minted, any later mint
/// naming the same ticket identifier fails with `TicketAlreadyHandled`
/// and changes nothing, whatever else it asks for.
pub proof fn lemma_ticket_idempotent(
    s: StateView,
    env1: HostEnvView,
    env2: HostEnvView,
    sender: Seq<char>,
    ticket_id: Seq<char>,
    token_id1: Seq<char>,
    receiver1: Seq<char>,
    amount1: u128,
    transmuter1: Option<Seq<char>>,
    token_id2: Seq<char>,
    receiver2: Seq<char>,
    amount2: u128,
    transmuter2: Option<Seq<char>>,
)
    requires
        spec_privilege_mint_token(
            s,
            env1,
            sender,
            ticket_id,
            token_id1,
            receiver1,
            amount1,
            transmuter1,
        ).1 is Ok,
    ensures
        ({
            let s1 = spec_privilege_mint_token(
                s,
                env1,
                sender,
                ticket_id,
                token_id1,
                receiver1,
                amount1,
                transmuter1,
            ).0;
            let again = spec_privilege_mint_token(
                s1,
                env2,
                sender,
                ticket_id,
                token_id2,
                receiver2,
                amount2,
                transmuter2,
            );
            again.0 == s1 && again.1 == Err::<crate::types::ResponseView, ErrorView>(ErrorView::TicketAlreadyHandled)
        }),
{
    let s1 = spec_privilege_mint_token(
        s,
        env1,
        sender,
        ticket_id,
        token_id1,
        receiver1,
        amount1,
        transmuter1,
    ).0;
    assert(s1.handled_tickets.contains(ticket_id));
}

/// Fee exactness, first half: with factors `F` and `C` configured, the
/// required fee is exactly `F * C`.
pub proof fn lemma_fee_exact(s: StateView, target_chain: Seq<char>, f: u128, c: u128)
    requires
        s.fee_token_factor == Some(f),
        s.target_chain_factor.contains_key(target_chain),
        s.target_chain_factor[target_chain] == c,
        f * c <= u128::MAX,
    ensures
        spec_calculate_fee(s, target_chain) == Ok::<u128, ErrorView>((f * c) as u128),
{
}

/// Fee exactness, second half: attaching any total other than the
/// required fee makes an outbound intent fail with `IncorrectFee`,
/// before any operation is dispatched and with the state untouched.
pub proof fn lemma_wrong_fee_rejected(
    s: StateView,
    env: HostEnvView,
    info: MessageInfoView,
    token_id: Seq<char>,
    receiver: Seq<char>,
    amount: u128,
    target_chain: Seq<char>,
    fee_token: Seq<char>,
    fee: u128,
)
    requires
        s.fee_token == Some(fee_token),
        spec_calculate_fee(s, target_chain) == Ok::<u128, ErrorView>(fee),
        spec_attached_total(info.funds, fee_token) != fee,
        0 <= spec_attached_total(info.funds, fee_token) <= u128::MAX,
    ensures
        ({
            let wrong = ErrorView::IncorrectFee(
                fee,
                spec_attached_total(info.funds, fee_token) as u128,
                info.funds,
            );
            &&& spec_check_fee(s, info, target_chain) == Err::<(Seq<char>, u128), _>(wrong)
            &&& spec_redeem_token(s, env, info, token_id, receiver, amount, target_chain).0 == s
            &&& (s.tokens.contains_key(canonical_id(token_id)) && spec_check_target_chain(
                s,
                target_chain,
            ) is Ok ==> spec_redeem_token(
                s,
                env,
                info,
                token_id,
                receiver,
                amount,
                target_chain,
            ).1 == Err::<crate::types::ResponseView, _>(wrong))
            &&& spec_redeem_all_btc(s, env, info, receiver, amount, target_chain).0 == s
            &&& (spec_check_target_chain(s, target_chain) is Ok ==> spec_redeem_all_btc(
                s,
                env,
                info,
                receiver,
                amount,
                target_chain,
            ).1 == Err::<crate::types::ResponseView, _>(wrong))
        }),
{
}

/// Sequence monotonicity, first half: a successful outbound intent
/// draws exactly the current sequence number and moves the counter up
/// by one; the drawn number rides in the burn's continuation record.
pub proof fn lemma_redeem_draws_next_sequence(
    s: StateView,
    env: HostEnvView,
    info: MessageInfoView,
    token_id: Seq<char>,
    receiver: Seq<char>,
    amount: u128,
    target_chain: Seq<char>,
)
    requires
        s.generate_ticket_sequence < u64::MAX,
        spec_redeem_token(s, env, info, token_id, receiver, amount, target_chain).1 is Ok,
    ensures
        ({
            let step = spec_redeem_token(s, env, info, token_id, receiver, amount, target_chain);
            let resp = step.1->Ok_0;
            &&& step.0.generate_ticket_sequence == s.generate_ticket_sequence + 1
            &&& resp.messages.len() == 1
            &&& resp.messages[0].callback matches Some(PendingOpView::Redeem(req))
                && req.seq == s.generate_ticket_sequence
        }),
{
}

/// The same, for a caller-shaped outbound ticket.
pub proof fn lemma_generate_ticket_draws_next_sequence(
    s: StateView,
    env: HostEnvView,
    info: MessageInfoView,
    token_id: Seq<char>,
    sender: Seq<char>,
    receiver: Seq<char>,
    amount: u128,
    target_chain: Seq<char>,
    action: crate::state::TxAction,
    memo: Option<Seq<char>>,
)
    requires
        s.generate_ticket_sequence < u64::MAX,
        crate::contract::spec_generate_ticket(
            s,
            env,
            info,
            token_id,
            sender,
            receiver,
            amount,
            target_chain,
            action,
            memo,
        ).1 is Ok,
    ensures
        ({
            let step = crate::contract::spec_generate_ticket(
                s,
                env,
                info,
                token_id,
                sender,
                receiver,
                amount,
                target_chain,
                action,
                memo,
            );
            let resp = step.1->Ok_0;
            &&& step.0.generate_ticket_sequence == s.generate_ticket_sequence + 1
            &&& resp.messages.len() == 1
            &&& resp.messages[0].callback matches Some(PendingOpView::GenerateTicket(req))
                && req.seq == s.generate_ticket_sequence
        }),
{
}

/// No continuation step ever dispatches more than one next operation,
/// and a failed step dispatches none.
pub proof fn lemma_step_dispatches_at_most_one(
    s: StateView,
    env: HostEnvView,
    op: PendingOpView,
    succeeded: bool,
)
    ensures
        spec_reply(s, env, op, succeeded).1 matches Ok(resp) ==> resp.messages.len() <= 1,
        !succeeded ==> (spec_reply(s, env, op, succeeded).1 matches Ok(resp)
            ==> resp.messages.len() == 0),
{
}

/// No continuation ever rolls the sequence counter back.
pub proof fn lemma_reply_keeps_sequence(
    s: StateView,
    env: HostEnvView,
    op: PendingOpView,
    succeeded: bool,
)
    requires
        s.generate_ticket_sequence < u64::MAX,
    ensures
        spec_reply(s, env, op, succeeded).0.generate_ticket_sequence
            >= s.generate_ticket_sequence,
{
}

/// Sequence monotonicity, second half: when the burn of an outbound
/// intent succeeds, its continuation persists the outbound record under
/// the drawn sequence number.
pub proof fn lemma_burn_success_persists_request(
    s: StateView,
    env: HostEnvView,
    req: crate::state::GenerateTicketReqView,
)
    ensures
        ({
            let step = spec_reply(s, env, PendingOpView::Redeem(req), true);
            &&& step.0.ticket_requests.contains_key(req.seq)
            &&& step.0.ticket_requests[req.seq] == req
            &&& step.1 is Ok
        }),
{
}

/// Saga completion: a mint with a valid transmute target dispatches
/// exactly one operation per step — the mint, then the swap, then the
/// send — and the mint is announced only after the send succeeded. A
/// failed swap dispatches nothing further and reports the original
/// ticket, receiver and amount.
pub proof fn lemma_mint_transmute_saga(
    s0: StateView,
    s1: StateView,
    s2: StateView,
    s3: StateView,
    env0: HostEnvView,
    env1: HostEnvView,
    env2: HostEnvView,
    env3: HostEnvView,
    sender: Seq<char>,
    ticket_id: Seq<char>,
    token_id: Seq<char>,
    receiver: Seq<char>,
    amount: u128,
    target: Seq<char>,
)
    requires
        spec_privilege_mint_token(
            s0,
            env0,
            sender,
            ticket_id,
            token_id,
            receiver,
            amount,
            Some(target),
        ).1 is Ok,
        s1.ckbtc_token_id == canonical_id(token_id),
        s1.allbtc_token_denom == target,
    ensures
        ({
            let p = MintTokenPayloadView {
                ticket_id,
                token_id: canonical_id(token_id),
                receiver,
                amount,
                transmuter: Some(target),
            };
            let start = spec_privilege_mint_token(
                s0,
                env0,
                sender,
                ticket_id,
                token_id,
                receiver,
                amount,
                Some(target),
            ).1->Ok_0;
            let mint_done = spec_reply(s1, env1, PendingOpView::MintToken(p), true);
            let swap_done = spec_reply(s2, env2, PendingOpView::SwapCkbtcToAllbtc(p), true);
            let swap_failed = spec_reply(s2, env2, PendingOpView::SwapCkbtcToAllbtc(p), false);
            let send_done = spec_reply(s3, env3, PendingOpView::SendAllbtc(p), true);
            // one mint, to this contract, resuming as the mint step; no event yet
            &&& start.messages.len() == 1
            &&& start.messages[0].op matches HostOpView::Mint { recipient, .. } && recipient
                == env0.contract
            &&& start.messages[0].callback == Some(PendingOpView::MintToken(p))
            &&& start.events.len() == 0
            // the mint's success dispatches exactly the swap; no event yet
            &&& mint_done.0 == s1 && mint_done.1 is Ok
            &&& mint_done.1->Ok_0.messages.len() == 1
            &&& mint_done.1->Ok_0.messages[0].op is Swap
            &&& mint_done.1->Ok_0.messages[0].callback == Some(
                PendingOpView::SwapCkbtcToAllbtc(p),
            )
            &&& mint_done.1->Ok_0.events.len() == 0
            // the swap's success dispatches exactly the send; no event yet
            &&& swap_done.0 == s2 && swap_done.1 is Ok
            &&& swap_done.1->Ok_0.messages.len() == 1
            &&& swap_done.1->Ok_0.messages[0].op matches HostOpView::BankSend {
                amount: sent,
                recipient,
                ..
            } && sent == amount && recipient == receiver
            &&& swap_done.1->Ok_0.messages[0].callback == Some(PendingOpView::SendAllbtc(p))
            &&& swap_done.1->Ok_0.events.len() == 0
            // only the send's success announces the mint
            &&& send_done.0 == s3 && send_done.1 is Ok
            &&& send_done.1->Ok_0.messages.len() == 0
            &&& send_done.1->Ok_0.events == seq![
                EventView::TokenMinted { ticket_id, token_id: canonical_id(token_id), receiver, amount },
            ]
            // a failed swap dispatches nothing and reports the original context
            &&& swap_failed.0 == s2 && swap_failed.1 is Ok
            &&& swap_failed.1->Ok_0.messages.len() == 0
            &&& swap_failed.1->Ok_0.events == seq![
                EventView::SwapCkbtcFailed { ticket_id, receiver, amount },
            ]
        }),
{
}

/// Normalization round trip: registering an identifier that carries the
/// reserved separator stores the record under the canonical identifier,
/// and outbound records for that token restore the original one.
pub proof fn lemma_normalization_round_trip(
    s: StateView,
    env: HostEnvView,
    sender: Seq<char>,
    seq: u64,
    t: crate::route::TokenView,
)
    requires
        spec_exec_directive(s, env, sender, seq, DirectiveView::AddToken(t)).1 is Ok,
        exists|i: int| 0 <= i < t.token_id.len() && t.token_id[i] == RUNES_SEPARATOR,
    ensures
        ({
            let s1 = spec_exec_directive(s, env, sender, seq, DirectiveView::AddToken(t)).0;
            let canon = canonical_id(t.token_id);
            &&& canon != t.token_id
            &&& s1.tokens.contains_key(canon)
            &&& s1.tokens[canon] == crate::contract::spec_stored_token(t)
            &&& State::spec_restored_id(s1, canon) == t.token_id
        }),
{
    let canon = canonical_id(t.token_id);
    let i = choose|i: int| 0 <= i < t.token_id.len() && t.token_id[i] == RUNES_SEPARATOR;
    assert(canon[i] == crate::state::RUNES_REPLACEMENT);
    assert(canon != t.token_id);
}

} // verus!
