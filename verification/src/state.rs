//! The payment session record, its lifecycle, and the event log.

use vstd::prelude::*;

use crate::custody::Authority;
use crate::custody::SettlementAuthority;
use crate::custody::TokenAccount;
use crate::custody::derived_authority;

verus! {

/// Bounded-length strings of the session record hold at most this many
/// characters.
pub const MAX_FIELD_LEN: usize = 50;

/// Where a payment session stands in its lifecycle.
#[derive(Clone, Copy, Debug, PartialEq, Eq, Structural)]
pub enum PaymentSessionStatus {
    /// Created; custody is still empty.
    Initialized,
    /// The payer has deposited exactly the session's amount into custody.
    Funded,
    /// Custody was released back to the payer. Terminal.
    Refunded,
    /// Custody was released to the merchant's destination. Terminal.
    Settled,
    /// Custody was released to the bridging account for an off-chain fiat
    /// payout. Terminal.
    PendingFiat,
}

impl Default for PaymentSessionStatus {
    /// A fresh session starts its lifecycle as `Initialized`.
    fn default() -> (r: Self)
        ensures
            r == PaymentSessionStatus::Initialized,
    {
        PaymentSessionStatus::Initialized
    }
}

/// Whether `status` is terminal: once reached, no instruction moves the
/// session again.
pub open spec fn is_terminal(status: PaymentSessionStatus) -> bool {
    ||| status is Refunded
    ||| status is Settled
    ||| status is PendingFiat
}

/// The directed edges of the session lifecycle: `Initialized` moves only to
/// `Funded`, and `Funded` moves to exactly one of the three terminal states.
/// No other transition exists.
pub open spec fn lifecycle_edge(from: PaymentSessionStatus, to: PaymentSessionStatus) -> bool {
    ||| (from is Initialized && to is Funded)
    ||| (from is Funded && is_terminal(to))
}

/// The only edge out of `Initialized` leads to `Funded`: there is no direct
/// path from `Initialized` to any terminal state, because funds must reach
/// custody before they can be moved out.
pub proof fn lemma_initialized_only_funds(to: PaymentSessionStatus)
    ensures
        lifecycle_edge(PaymentSessionStatus::Initialized, to) <==> to is Funded,
{
}

/// No edge leaves a terminal state: a refunded or settled session never
/// moves again.
pub proof fn lemma_terminal_has_no_successor(from: PaymentSessionStatus, to: PaymentSessionStatus)
    requires
        is_terminal(from),
    ensures
        !lifecycle_edge(from, to),
{
}

/// A sequence of observed statuses in which every consecutive pair is a
/// lifecycle edge.
pub open spec fn is_lifecycle_path(trace: Seq<PaymentSessionStatus>) -> bool {
    forall|i: int| 0 <= i && i + 1 < trace.len() ==> lifecycle_edge(
        #[trigger] trace[i],
        trace[i + 1],
    )
}

/// Every lifecycle path that starts at `Initialized` visits at most three
/// states: `Initialized`, then `Funded`, then one terminal state, where it
/// stays forever.
pub proof fn lemma_lifecycle_path_bounded(trace: Seq<PaymentSessionStatus>)
    requires
        is_lifecycle_path(trace),
        trace.len() > 0,
        trace[0] is Initialized,
    ensures
        trace.len() <= 3,
        trace.len() >= 2 ==> trace[1] is Funded,
        trace.len() >= 3 ==> is_terminal(trace[2]),
{
    if trace.len() >= 2 {
        assert(lifecycle_edge(trace[0], trace[1]));
    }
    if trace.len() >= 3 {
        assert(lifecycle_edge(trace[1], trace[2]));
    }
    if trace.len() >= 4 {
        assert(lifecycle_edge(trace[2], trace[3]));
    }
}

/// Durable state for one escrow payment, keyed by a caller-assigned unique
/// 128-bit id. The record is created once, moves along the lifecycle of
/// [`lifecycle_edge`], and persists indefinitely as an audit trail.
#[derive(Debug)]
pub struct PaymentSession {
    /// Address of this record itself; part of the settlement authority's
    /// seed material.
    pub address: u128,
    /// The party that funds the session and receives a refund.
    pub payer: u128,
    /// Opaque merchant identifier; at most [`MAX_FIELD_LEN`] characters.
    pub merchant_id: String,
    /// The exact quantity moved by every transfer of this session; set once
    /// at creation, always positive.
    pub amount: u64,
    /// The only token type this session accepts; immutable once set.
    pub token_mint: u128,
    /// Address of the custody account holding the escrowed funds.
    pub escrow_ata: u128,
    /// Address of the payer's funding account.
    pub payer_ata: u128,
    /// Where the session stands in its lifecycle.
    pub status: PaymentSessionStatus,
    /// Advisory deadline read by external monitors; not enforced here.
    pub expiry_ts: i64,
    /// When the session was created.
    pub created_ts: i64,
    /// When the deposit committed; absent before that.
    pub funded_ts: Option<i64>,
    /// When a settlement committed; absent before that.
    pub settled_ts: Option<i64>,
    /// Salt of the session record's own derived address.
    pub bump: u8,
    /// Opaque tracking identifier; at most [`MAX_FIELD_LEN`] characters.
    pub reference_id: String,
    /// The derived authority that exclusively controls the custody account.
    pub settlement_authority: SettlementAuthority,
    /// Salt of the settlement authority's derivation, stored so later
    /// instructions can re-derive the authority without searching.
    pub settlement_bump: u8,
    /// Caller-assigned unique id; the sole disambiguator between sessions of
    /// one payer.
    pub uuid: u128,
    /// Off-chain routing: the fiat currency of the payout.
    pub fiat_currency: String,
    /// Off-chain routing: the merchant's bank identifier.
    pub merchant_bank: String,
    /// Set by the off-chain payout pipeline after it starts a payout; never
    /// written by this engine.
    pub bitpay_payout_id: Option<String>,
}

impl PaymentSession {
    /// Well-formedness of a session record: the amount is positive, the
    /// bounded strings respect their cap, the stored settlement authority is
    /// exactly the one derived from this session's own identity, and the
    /// optional timestamps agree with the status.
    pub open spec fn wf(self) -> bool {
        &&& self.amount > 0
        &&& self.merchant_id@.len() <= MAX_FIELD_LEN
        &&& self.reference_id@.len() <= MAX_FIELD_LEN
        &&& self.fiat_currency@.len() <= MAX_FIELD_LEN
        &&& self.merchant_bank@.len() <= MAX_FIELD_LEN
        &&& self.settlement_authority == derived_authority(
            self.address,
            self.uuid,
            self.settlement_bump,
        )
        &&& self.status is Initialized ==> self.funded_ts is None && self.settled_ts is None
        &&& self.status is Funded ==> self.funded_ts is Some && self.settled_ts is None
        &&& self.status is Refunded ==> self.funded_ts is Some && self.settled_ts is None
        &&& (self.status is Settled || self.status is PendingFiat) ==> self.funded_ts is Some
            && self.settled_ts is Some
    }

    /// Whether `escrow` is this session's custody account, seen through the
    /// session's invariants: it is the recorded account, holds the session's
    /// token type, is exclusively controlled by the session's derived
    /// settlement authority, and its balance tracks the lifecycle — empty
    /// before the deposit, exactly `amount` while the session is funded.
    pub open spec fn custody_consistent(self, escrow: TokenAccount) -> bool {
        &&& escrow.address == self.escrow_ata
        &&& escrow.mint == self.token_mint
        &&& escrow.owner == Authority::Derived(self.settlement_authority)
        &&& self.status is Initialized ==> escrow.balance == 0
        &&& self.status is Funded ==> escrow.balance == self.amount
    }
}

/// The public-facing snapshot a handler appends to the event log when a
/// session is created or funded.
#[derive(Debug)]
pub struct PaymentSessionCreated {
    pub payer: u128,
    pub merchant_id: String,
    pub amount: u64,
    pub token_mint: u128,
    pub escrow_ata: u128,
    pub payer_ata: u128,
    pub status: PaymentSessionStatus,
    pub expiry_ts: i64,
    pub created_ts: i64,
    pub funded_ts: Option<i64>,
    pub settled_ts: Option<i64>,
    pub reference_id: String,
    pub settlement_authority: SettlementAuthority,
}

impl PaymentSessionCreated {
    /// The snapshot of `session` this event carries.
    pub open spec fn of_session(session: PaymentSession) -> PaymentSessionCreated {
        PaymentSessionCreated {
            payer: session.payer,
            merchant_id: session.merchant_id,
            amount: session.amount,
            token_mint: session.token_mint,
            escrow_ata: session.escrow_ata,
            payer_ata: session.payer_ata,
            status: session.status,
            expiry_ts: session.expiry_ts,
            created_ts: session.created_ts,
            funded_ts: session.funded_ts,
            settled_ts: session.settled_ts,
            reference_id: session.reference_id,
            settlement_authority: session.settlement_authority,
        }
    }

    /// Take the snapshot of `session` this event carries.
    pub fn from_session(session: &PaymentSession) -> (r: PaymentSessionCreated)
        ensures
            r == Self::of_session(*session),
    {
        PaymentSessionCreated {
            payer: session.payer,
            merchant_id: session.merchant_id.clone(),
            amount: session.amount,
            token_mint: session.token_mint,
            escrow_ata: session.escrow_ata,
            payer_ata: session.payer_ata,
            status: session.status,
            expiry_ts: session.expiry_ts,
            created_ts: session.created_ts,
            funded_ts: session.funded_ts,
            settled_ts: session.settled_ts,
            reference_id: session.reference_id.clone(),
            settlement_authority: session.settlement_authority,
        }
    }
}

/// The snapshot a handler appends to the event log when custody is released
/// back to the payer.
#[derive(Debug)]
pub struct PaymentSessionRefunded {
    pub payer: u128,
    pub merchant_id: String,
    pub amount: u64,
    pub token_mint: u128,
    pub escrow_ata: u128,
    pub payer_ata: u128,
    pub status: PaymentSessionStatus,
    pub expiry_ts: i64,
    pub reference_id: String,
    pub settlement_authority: SettlementAuthority,
}

impl PaymentSessionRefunded {
    /// The snapshot of `session` this event carries.
    pub open spec fn of_session(session: PaymentSession) -> PaymentSessionRefunded {
        PaymentSessionRefunded {
            payer: session.payer,
            merchant_id: session.merchant_id,
            amount: session.amount,
            token_mint: session.token_mint,
            escrow_ata: session.escrow_ata,
            payer_ata: session.payer_ata,
            status: session.status,
            expiry_ts: session.expiry_ts,
            reference_id: session.reference_id,
            settlement_authority: session.settlement_authority,
        }
    }

    /// Take the snapshot of `session` this event carries.
    pub fn from_session(session: &PaymentSession) -> (r: PaymentSessionRefunded)
        ensures
            r == Self::of_session(*session),
    {
        PaymentSessionRefunded {
            payer: session.payer,
            merchant_id: session.merchant_id.clone(),
            amount: session.amount,
            token_mint: session.token_mint,
            escrow_ata: session.escrow_ata,
            payer_ata: session.payer_ata,
            status: session.status,
            expiry_ts: session.expiry_ts,
            reference_id: session.reference_id.clone(),
            settlement_authority: session.settlement_authority,
        }
    }
}

/// The snapshot a handler appends to the event log when custody is released
/// towards the merchant, directly or through the fiat bridging account.
#[derive(Debug)]
pub struct PaymentSessionSettled {
    pub payer: u128,
    pub merchant_id: String,
    pub amount: u64,
    pub token_mint: u128,
    pub escrow_ata: u128,
    pub payer_ata: u128,
    pub status: PaymentSessionStatus,
    pub expiry_ts: i64,
    pub reference_id: String,
    pub settlement_authority: SettlementAuthority,
}

impl PaymentSessionSettled {
    /// The snapshot of `session` this event carries.
    pub open spec fn of_session(session: PaymentSession) -> PaymentSessionSettled {
        PaymentSessionSettled {
            payer: session.payer,
            merchant_id: session.merchant_id,
            amount: session.amount,
            token_mint: session.token_mint,
            escrow_ata: session.escrow_ata,
            payer_ata: session.payer_ata,
            status: session.status,
            expiry_ts: session.expiry_ts,
            reference_id: session.reference_id,
            settlement_authority: session.settlement_authority,
        }
    }

    /// Take the snapshot of `session` this event carries.
    pub fn from_session(session: &PaymentSession) -> (r: PaymentSessionSettled)
        ensures
            r == Self::of_session(*session),
    {
        PaymentSessionSettled {
            payer: session.payer,
            merchant_id: session.merchant_id.clone(),
            amount: session.amount,
            token_mint: session.token_mint,
            escrow_ata: session.escrow_ata,
            payer_ata: session.payer_ata,
            status: session.status,
            expiry_ts: session.expiry_ts,
            reference_id: session.reference_id.clone(),
            settlement_authority: session.settlement_authority,
        }
    }
}

/// One entry of the event log: the structured record of a committed state
/// transition.
#[derive(Debug)]
pub enum PaymentEvent {
    /// The session was created or funded; carries the full post-transition
    /// snapshot.
    Created(PaymentSessionCreated),
    /// Custody was released back to the payer.
    Refunded(PaymentSessionRefunded),
    /// Custody was released towards the merchant.
    Settled(PaymentSessionSettled),
}

/// An append-only, ordered log of state-transition events, consumed by
/// external watchers. An event stands in it if and only if the corresponding
/// transition committed.
#[derive(Debug)]
pub struct EventLog {
    /// The events, oldest first.
    pub events: Vec<PaymentEvent>,
}

impl View for EventLog {
    type V = Seq<PaymentEvent>;

    open spec fn view(&self) -> Seq<PaymentEvent> {
        self.events@
    }
}

impl EventLog {
    /// An empty log.
    pub fn new() -> (r: EventLog)
        ensures
            r@ == Seq::<PaymentEvent>::empty(),
    {
        EventLog { events: Vec::new() }
    }

    /// Append one event; nothing already logged moves or changes.
    pub fn emit(&mut self, event: PaymentEvent)
        ensures
            final(self)@ == old(self)@.push(event),
    {
        self.events.push(event);
    }

    /// How many events have been logged.
    pub fn len(&self) -> (n: usize)
        ensures
            n == self@.len(),
    {
        self.events.len()
    }
}

} // verus!
