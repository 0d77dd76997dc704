//! Returning custody to the payer: the `Refund` instruction.

use vstd::prelude::*;

use crate::custody::Authority;
use crate::custody::TokenAccount;
use crate::custody::credited;
use crate::custody::debited;
use crate::custody::derive_settlement_authority;
use crate::custody::derived_authority;
use crate::custody::transfer_admissible;
use crate::custody::transfer_checked;
use crate::custody::transfer_rejection;
use crate::errors::PaymentError;
use crate::state::EventLog;
use crate::state::PaymentEvent;
use crate::state::PaymentSession;
use crate::state::PaymentSessionRefunded;
use crate::state::PaymentSessionStatus;
use crate::state::lifecycle_edge;

verus! {

/// Everything the `Refund` instruction works on: the session record, its
/// custody account, and the payer's account that receives the funds back.
pub struct RefundPayment {
    /// The payer the funds return to.
    pub payer: u128,
    /// The session being refunded.
    pub payment_session: PaymentSession,
    /// The payer's account, the destination of the refund.
    pub payer_ata: TokenAccount,
    /// The session's custody account, the source of the refund.
    pub escrow_ata: TokenAccount,
    /// The token type of the transfer; the session accepts no other.
    pub token_mint: u128,
}

impl RefundPayment {
    /// The settlement authority this instruction recomputes from the
    /// session's stored seed material to authorize the debit of custody.
    pub open spec fn presented_authority(self) -> Authority {
        Authority::Derived(
            derived_authority(
                self.payment_session.address,
                self.payment_session.uuid,
                self.payment_session.settlement_bump,
            ),
        )
    }

    /// Whether the accounts handed to `Refund` are the ones the session
    /// record names: a well-formed session, its own custody account, and
    /// the recorded destination.
    pub open spec fn wf(self) -> bool {
        &&& self.payment_session.wf()
        &&& self.payment_session.custody_consistent(self.escrow_ata)
        &&& self.payer_ata.address == self.payment_session.payer_ata
        &&& self.token_mint == self.payment_session.token_mint
    }

    /// Whether the refund goes through: the session must be `Funded`, and
    /// the transfer of its amount out of custody, authorized by the
    /// recomputed settlement authority, must pass every check of the
    /// transfer primitive.
    pub open spec fn can_refund(self) -> bool {
        &&& self.payment_session.status is Funded
        &&& transfer_admissible(
            self.escrow_ata,
            self.payer_ata,
            self.token_mint,
            self.payment_session.amount,
            self.presented_authority(),
        )
    }

    /// The error a rejected refund reports: a session outside `Funded` is a
    /// state error; otherwise the transfer primitive's rejection bubbles
    /// up, a destination of the wrong token type above all.
    pub open spec fn refund_rejection(self) -> PaymentError {
        if !(self.payment_session.status is Funded) {
            PaymentError::InvalidPaymentSessionState
        } else {
            transfer_rejection(
                self.escrow_ata,
                self.payer_ata,
                self.token_mint,
                self.payment_session.amount,
                self.presented_authority(),
            )
        }
    }

    /// The state after a successful refund: the session's amount has moved
    /// from custody back to the payer's account, and the session is
    /// `Refunded`. Every other field is unchanged.
    pub open spec fn refunded(self) -> RefundPayment {
        RefundPayment {
            payment_session: PaymentSession {
                status: PaymentSessionStatus::Refunded,
                ..self.payment_session
            },
            payer_ata: credited(self.payer_ata, self.payment_session.amount),
            escrow_ata: debited(self.escrow_ata, self.payment_session.amount),
            ..self
        }
    }

    /// Move exactly the session's amount from custody back to the payer's
    /// account under the session's own settlement authority, advance the
    /// session to `Refunded`, and log the refund snapshot — or reject and
    /// leave the session, both balances and the log untouched. On success
    /// custody is left empty.
    pub fn refund_payment(&mut self, log: &mut EventLog) -> (r: Result<(), PaymentError>)
        requires
            old(self).wf(),
            old(self).payer_ata.balance + old(self).payment_session.amount <= u64::MAX,
        ensures
            final(self).payment_session.amount == old(self).payment_session.amount,
            final(self).payment_session.token_mint == old(self).payment_session.token_mint,
            final(self).payment_session.uuid == old(self).payment_session.uuid,
            r is Ok <==> old(self).can_refund(),
            r is Ok ==> *final(self) == old(self).refunded(),
            r is Ok ==> final(self).wf(),
            r is Ok ==> final(self).escrow_ata.balance == 0,
            r is Ok ==> final(self).payer_ata.balance == old(self).payer_ata.balance as int
                + old(self).payment_session.amount as int,
            r is Ok ==> lifecycle_edge(
                old(self).payment_session.status,
                final(self).payment_session.status,
            ),
            r is Ok ==> final(log)@ == old(log)@.push(
                PaymentEvent::Refunded(
                    PaymentSessionRefunded::of_session(final(self).payment_session),
                ),
            ),
            r is Err ==> *final(self) == *old(self),
            r is Err ==> final(log)@ == old(log)@,
            r is Err ==> r == Err::<(), PaymentError>(old(self).refund_rejection()),
    {
        if !(self.payment_session.status == PaymentSessionStatus::Funded) {
            return Err(PaymentError::InvalidPaymentSessionState);
        }
        let authority = derive_settlement_authority(
            self.payment_session.address,
            self.payment_session.uuid,
            self.payment_session.settlement_bump,
        );
        let amount = self.payment_session.amount;
        match transfer_checked(
            &mut self.escrow_ata,
            &mut self.payer_ata,
            self.token_mint,
            amount,
            Authority::Derived(authority),
        ) {
            Ok(()) => {},
            Err(e) => {
                return Err(e);
            },
        }
        self.payment_session.status = PaymentSessionStatus::Refunded;
        let event = PaymentSessionRefunded::from_session(&self.payment_session);
        log.emit(PaymentEvent::Refunded(event));
        Ok(())
    }
}

/// Refund moves exactly the session's amount back to the payer and leaves
/// custody empty, and it is not idempotent on success: the session is then
/// `Refunded`, so replaying the refund is rejected as a state error, and a
/// rejected refund changes nothing.
pub proof fn lemma_refund_replay_fails(ctx: RefundPayment)
    requires
        ctx.wf(),
        ctx.can_refund(),
        ctx.payer_ata.balance + ctx.payment_session.amount <= u64::MAX,
    ensures
        ctx.refunded().escrow_ata.balance == 0,
        ctx.refunded().payer_ata.balance == ctx.payer_ata.balance + ctx.payment_session.amount,
        !ctx.refunded().can_refund(),
        ctx.refunded().refund_rejection() == PaymentError::InvalidPaymentSessionState,
{
}

} // verus!
