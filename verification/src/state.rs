//! The bridge's durable state and the token-id normalization rule.

use vstd::prelude::*;
use vstd::string::StrSliceExecFns;
use vstd::string::StringExecFns;

use crate::route::{Chain, ChainId, ChainState, ChainView, Token, TokenId, TokenView};
use crate::store::{AssocTable, ExactClone, KeySet};

verus! {

/// Reserved separator of externally-supplied rune token identifiers; it
/// cannot appear in a host-ledger denomination, so identifiers carrying it
/// are rewritten before use.
pub const RUNES_SEPARATOR: char = '\u{2022}';

/// What the canonical form substitutes for the reserved separator.
pub const RUNES_REPLACEMENT: char = '.';

/// Canonical image of one identifier character.
pub open spec fn canonical_char(c: char) -> char {
    if c == RUNES_SEPARATOR {
        RUNES_REPLACEMENT
    } else {
        c
    }
}

/// Canonical form of an externally-supplied token identifier: every
/// reserved separator replaced, all else kept.
pub open spec fn canonical_id(s: Seq<char>) -> Seq<char> {
    s.map_values(|c: char| canonical_char(c))
}

/// Rewrites a token identifier to its canonical form.
pub fn normalize_token_id(token_id: &String) -> (r: String)
    ensures
        r@ == canonical_id(token_id@),
{
    let n = token_id.as_str().unicode_len();
    let mut out = String::new();
    let mut i: usize = 0;
    while i < n
        invariant
            i <= n,
            n == token_id@.len(),
            out@ == canonical_id(token_id@.subrange(0, i as int)),
        decreases n - i,
    {
        let c = token_id.as_str().get_char(i);
        if c == RUNES_SEPARATOR {
            out.append(".");
            proof {
                reveal_strlit(".");
            }
        } else {
            let piece = token_id.as_str().substring_char(i, i + 1);
            out.append(piece);
        }
        proof {
            assert(out@ =~= canonical_id(token_id@.subrange(0, i + 1 as int)));
        }
        i = i + 1;
    }
    proof {
        assert(token_id@.subrange(0, n as int) =~= token_id@);
    }
    out
}

/// Whether an identifier already is its own canonical form.
pub open spec fn id_is_canonical(s: Seq<char>) -> bool {
    canonical_id(s) == s
}

/// An operation the host ledger performs on behalf of an outbound ticket.
#[derive(Debug, Clone, Copy, PartialEq, Eq, Structural)]
pub enum TxAction {
    Transfer,
    Redeem,
    Burn,
    RedeemIcpChainKeyAssets(IcpChainKeyToken),
}

/// Chain-key assets whose redemption the bridge understands.
#[derive(Debug, Clone, Copy, PartialEq, Eq, Structural)]
pub enum IcpChainKeyToken {
    CKBTC,
}

/// The durable record of one outbound transfer intent, keyed by its
/// sequence number.
#[derive(Debug, Clone, PartialEq, Eq)]
pub struct GenerateTicketReq {
    pub seq: u64,
    pub target_chain_id: String,
    pub sender: String,
    pub receiver: String,
    pub token_id: String,
    pub amount: u128,
    pub action: TxAction,
    pub timestamp: u64,
    pub block_height: u64,
    pub memo: Option<String>,
    pub fee_token: String,
    pub fee_amount: u128,
}

/// Mathematical image of a [`GenerateTicketReq`].
#[verifier::ext_equal]
pub struct GenerateTicketReqView {
    pub seq: u64,
    pub target_chain_id: Seq<char>,
    pub sender: Seq<char>,
    pub receiver: Seq<char>,
    pub token_id: Seq<char>,
    pub amount: u128,
    pub action: TxAction,
    pub timestamp: u64,
    pub block_height: u64,
    pub memo: Option<Seq<char>>,
    pub fee_token: Seq<char>,
    pub fee_amount: u128,
}

impl View for GenerateTicketReq {
    type V = GenerateTicketReqView;

    open spec fn view(&self) -> GenerateTicketReqView {
        GenerateTicketReqView {
            seq: self.seq,
            target_chain_id: self.target_chain_id@,
            sender: self.sender@,
            receiver: self.receiver@,
            token_id: self.token_id@,
            amount: self.amount,
            action: self.action,
            timestamp: self.timestamp,
            block_height: self.block_height,
            memo: self.memo.deep_view(),
            fee_token: self.fee_token@,
            fee_amount: self.fee_amount,
        }
    }
}

impl ExactClone for GenerateTicketReq {
    fn exact_clone(&self) -> (r: Self) {
        GenerateTicketReq {
            seq: self.seq,
            target_chain_id: self.target_chain_id.clone(),
            sender: self.sender.clone(),
            receiver: self.receiver.clone(),
            token_id: self.token_id.clone(),
            amount: self.amount,
            action: self.action,
            timestamp: self.timestamp,
            block_height: self.block_height,
            memo: self.memo.exact_clone(),
            fee_token: self.fee_token.clone(),
            fee_amount: self.fee_amount,
        }
    }
}

/// The engine's durable state: registries, fee configuration, replay
/// guards, the outbound sequence counter and the outbound ticket table.
pub struct State {
    pub route: String,
    pub admin: String,
    pub tokens: AssocTable<TokenId, Token>,
    pub handled_tickets: KeySet<String>,
    pub handled_directives: KeySet<u64>,
    pub target_chain_factor: AssocTable<ChainId, u128>,
    pub fee_token: Option<String>,
    pub fee_token_factor: Option<u128>,
    pub counterparties: AssocTable<ChainId, Chain>,
    pub chain_id: ChainId,
    pub chain_state: ChainState,
    pub target_chain_redeem_min_amount: AssocTable<(TokenId, ChainId), u128>,
    pub generate_ticket_sequence: u64,
    pub ckbtc_token_id: String,
    pub allbtc_token_denom: String,
    pub allbtc_swap_pool_id: u64,
    pub runes_replaced_id_map: AssocTable<String, String>,
    pub ticket_requests: AssocTable<u64, GenerateTicketReq>,
}

/// Mathematical image of the whole [`State`].
#[verifier::ext_equal]
pub struct StateView {
    pub route: Seq<char>,
    pub admin: Seq<char>,
    pub tokens: Map<Seq<char>, TokenView>,
    pub handled_tickets: Set<Seq<char>>,
    pub handled_directives: Set<u64>,
    pub target_chain_factor: Map<Seq<char>, u128>,
    pub fee_token: Option<Seq<char>>,
    pub fee_token_factor: Option<u128>,
    pub counterparties: Map<Seq<char>, ChainView>,
    pub chain_id: Seq<char>,
    pub chain_state: ChainState,
    pub target_chain_redeem_min_amount: Map<(Seq<char>, Seq<char>), u128>,
    pub generate_ticket_sequence: u64,
    pub ckbtc_token_id: Seq<char>,
    pub allbtc_token_denom: Seq<char>,
    pub allbtc_swap_pool_id: u64,
    pub runes_replaced_id_map: Map<Seq<char>, Seq<char>>,
    pub ticket_requests: Map<u64, GenerateTicketReqView>,
}

impl View for State {
    type V = StateView;

    open spec fn view(&self) -> StateView {
        StateView {
            route: self.route@,
            admin: self.admin@,
            tokens: self.tokens@,
            handled_tickets: self.handled_tickets@,
            handled_directives: self.handled_directives@,
            target_chain_factor: self.target_chain_factor@,
            fee_token: self.fee_token.deep_view(),
            fee_token_factor: self.fee_token_factor,
            counterparties: self.counterparties@,
            chain_id: self.chain_id@,
            chain_state: self.chain_state,
            target_chain_redeem_min_amount: self.target_chain_redeem_min_amount@,
            generate_ticket_sequence: self.generate_ticket_sequence,
            ckbtc_token_id: self.ckbtc_token_id@,
            allbtc_token_denom: self.allbtc_token_denom@,
            allbtc_swap_pool_id: self.allbtc_swap_pool_id,
            runes_replaced_id_map: self.runes_replaced_id_map@,
            ticket_requests: self.ticket_requests@,
        }
    }
}

/// The registry keys each token by the identifier the token itself
/// carries.
pub open spec fn registry_keyed_by_id(tokens: Map<Seq<char>, TokenView>) -> bool {
    forall|k: Seq<char>| #[trigger]
        tokens.contains_key(k) ==> tokens[k].token_id == k
}

impl State {
    /// Representation invariant: each table keeps one entry per key, and
    /// the token registry is keyed by the tokens' own identifiers.
    pub open spec fn wf(&self) -> bool {
        &&& self.tokens.wf()
        &&& self.target_chain_factor.wf()
        &&& self.counterparties.wf()
        &&& self.target_chain_redeem_min_amount.wf()
        &&& self.runes_replaced_id_map.wf()
        &&& self.ticket_requests.wf()
        &&& registry_keyed_by_id(self@.tokens)
    }

    /// The external identifier an outbound record must report for a
    /// canonical token identifier: the original rune identifier where one
    /// was rewritten at registration, the identifier itself otherwise.
    pub open spec fn spec_restored_id(s: StateView, token_id: Seq<char>) -> Seq<char> {
        if s.runes_replaced_id_map.contains_key(token_id) {
            s.runes_replaced_id_map[token_id]
        } else {
            token_id
        }
    }

    /// Restores the original external identifier of a rewritten rune
    /// token identifier.
    pub fn replace_token_id_if_runes(&self, token_id: &String) -> (r: String)
        requires
            self.wf(),
        ensures
            r@ == State::spec_restored_id(self@, token_id@),
    {
        match self.runes_replaced_id_map.get(token_id) {
            Some(original) => original.clone(),
            None => token_id.clone(),
        }
    }
}

} // verus!
