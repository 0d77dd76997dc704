//! An escrow-based payment settlement engine.
//!
//! A payer locks a fixed quantity of a fungible token into a custody account;
//! the engine later releases it back to the payer (refund), to a
//! merchant-controlled destination (direct settlement), or to a bridging
//! account that hands off to an off-chain fiat payout pipeline (pending-fiat
//! settlement). Each payment is tracked by a [`state::PaymentSession`] record
//! that moves through a strict lifecycle, and every outbound transfer from
//! custody is gated by a settlement authority derived from the session's own
//! identity, so one session's authority can never move another session's
//! funds.

use vstd::prelude::*;

pub mod custody;
pub mod errors;
pub mod state;
pub mod instructions;

use crate::custody::TokenAccount;
use crate::errors::PaymentError;
use crate::instructions::deposit_stablecoin::DepositStablecoin;
use crate::instructions::init_payment_session::InitPaymentSession;
use crate::instructions::mark_payment_settled::MarkPaymentSettled;
use crate::instructions::mark_payment_settled::SettleDirect;
use crate::instructions::refund_payment::RefundPayment;
use crate::state::EventLog;
use crate::state::MAX_FIELD_LEN;
use crate::state::PaymentEvent;
use crate::state::PaymentSession;
use crate::state::PaymentSessionCreated;
use crate::state::PaymentSessionRefunded;
use crate::state::PaymentSessionSettled;

verus! {

/// Create a payment session: dispatches to
/// [`InitPaymentSession::initialize`], whose contract it repeats.
pub fn init_payment_session(
    ctx: &InitPaymentSession,
    uuid: u128,
    merchant_id: String,
    amount: u64,
    reference_id: String,
    fiat_currency: String,
    merchant_bank: String,
    log: &mut EventLog,
) -> (r: (PaymentSession, TokenAccount))
    requires
        ctx.wf(),
        amount > 0,
        merchant_id@.len() <= MAX_FIELD_LEN,
        reference_id@.len() <= MAX_FIELD_LEN,
        fiat_currency@.len() <= MAX_FIELD_LEN,
        merchant_bank@.len() <= MAX_FIELD_LEN,
    ensures
        r.0 == ctx.session_of(uuid, merchant_id, amount, reference_id, fiat_currency, merchant_bank),
        r.1 == ctx.escrow_of(uuid),
        r.0.wf(),
        r.0.custody_consistent(r.1),
        final(log)@ == old(log)@.push(
            PaymentEvent::Created(PaymentSessionCreated::of_session(r.0)),
        ),
{
    ctx.initialize(uuid, merchant_id, amount, reference_id, fiat_currency, merchant_bank, log)
}

/// Fund a session: dispatches to
/// [`DepositStablecoin::deposit_stablecoin`], whose contract it repeats.
pub fn deposit_stablecoin(ctx: &mut DepositStablecoin, now: i64, log: &mut EventLog) -> (r: Result<
    (),
    PaymentError,
>)
    requires
        old(ctx).wf(),
    ensures
        r is Ok <==> old(ctx).can_deposit(),
        r is Ok ==> *final(ctx) == old(ctx).deposited(now) && final(ctx).wf(),
        r is Ok ==> final(log)@ == old(log)@.push(
            PaymentEvent::Created(PaymentSessionCreated::of_session(final(ctx).payment_session)),
        ),
        r is Err ==> *final(ctx) == *old(ctx) && final(log)@ == old(log)@,
        r is Err ==> r == Err::<(), PaymentError>(old(ctx).deposit_rejection()),
{
    ctx.deposit_stablecoin(now, log)
}

/// Refund a session: dispatches to [`RefundPayment::refund_payment`], whose
/// contract it repeats.
pub fn refund_payment(ctx: &mut RefundPayment, log: &mut EventLog) -> (r: Result<
    (),
    PaymentError,
>)
    requires
        old(ctx).wf(),
        old(ctx).payer_ata.balance + old(ctx).payment_session.amount <= u64::MAX,
    ensures
        r is Ok <==> old(ctx).can_refund(),
        r is Ok ==> *final(ctx) == old(ctx).refunded() && final(ctx).wf(),
        r is Ok ==> final(log)@ == old(log)@.push(
            PaymentEvent::Refunded(PaymentSessionRefunded::of_session(final(ctx).payment_session)),
        ),
        r is Err ==> *final(ctx) == *old(ctx) && final(log)@ == old(log)@,
        r is Err ==> r == Err::<(), PaymentError>(old(ctx).refund_rejection()),
{
    ctx.refund_payment(log)
}

/// Settle a session towards the off-chain fiat payout: dispatches to
/// [`MarkPaymentSettled::mark_payment_settled`], whose contract it repeats.
pub fn mark_payment_settled(ctx: &mut MarkPaymentSettled, now: i64, log: &mut EventLog) -> (r:
    Result<(), PaymentError>)
    requires
        old(ctx).wf(),
        old(ctx).bitpay_ata.balance + old(ctx).payment_session.amount <= u64::MAX,
    ensures
        r is Ok <==> old(ctx).can_settle(),
        r is Ok ==> *final(ctx) == old(ctx).settled(now) && final(ctx).wf(),
        r is Ok ==> final(log)@ == old(log)@.push(
            PaymentEvent::Settled(PaymentSessionSettled::of_session(final(ctx).payment_session)),
        ),
        r is Err ==> *final(ctx) == *old(ctx) && final(log)@ == old(log)@,
        r is Err ==> r == Err::<(), PaymentError>(old(ctx).settle_rejection()),
{
    ctx.mark_payment_settled(now, log)
}

/// Settle a session straight to the merchant: dispatches to
/// [`SettleDirect::settle_direct`], whose contract it repeats.
pub fn settle_direct(ctx: &mut SettleDirect, now: i64, log: &mut EventLog) -> (r: Result<
    (),
    PaymentError,
>)
    requires
        old(ctx).wf(),
        old(ctx).merchant_ata.balance + old(ctx).payment_session.amount <= u64::MAX,
    ensures
        r is Ok <==> old(ctx).can_settle_direct(),
        r is Ok ==> *final(ctx) == old(ctx).settled_direct(now) && final(ctx).wf(),
        r is Ok ==> final(log)@ == old(log)@.push(
            PaymentEvent::Settled(PaymentSessionSettled::of_session(final(ctx).payment_session)),
        ),
        r is Err ==> *final(ctx) == *old(ctx) && final(log)@ == old(log)@,
        r is Err ==> r == Err::<(), PaymentError>(old(ctx).settle_direct_rejection()),
{
    ctx.settle_direct(now, log)
}

} // verus!
