//! Funding a payment session: the `Deposit` instruction.

use vstd::prelude::*;

use crate::custody::Authority;
use crate::custody::TokenAccount;
use crate::custody::credited;
use crate::custody::debited;
use crate::custody::transfer_admissible;
use crate::custody::transfer_checked;
use crate::custody::transfer_rejection;
use crate::errors::PaymentError;
use crate::state::EventLog;
use crate::state::PaymentEvent;
use crate::state::PaymentSession;
use crate::state::PaymentSessionCreated;
use crate::state::PaymentSessionStatus;
use crate::state::lifecycle_edge;

verus! {

/// Everything the `Deposit` instruction works on: the signing payer, the
/// session record, the payer's funding account and the session's custody
/// account.
pub struct DepositStablecoin {
    /// The signer invoking the deposit; the transfer out of `payer_ata` is
    /// authorized by this real key, not by the settlement authority.
    pub payer: u128,
    /// The session being funded.
    pub payment_session: PaymentSession,
    /// The payer's funding account, the source of the deposit.
    pub payer_ata: TokenAccount,
    /// The session's custody account, the destination of the deposit.
    pub escrow_ata: TokenAccount,
    /// The token type of the transfer; the session accepts no other.
    pub token_mint: u128,
}

impl DepositStablecoin {
    /// Whether the accounts handed to `Deposit` are the ones the session
    /// record names: a well-formed session, its own custody account, the
    /// recorded funding account, and the session's token type.
    pub open spec fn wf(self) -> bool {
        &&& self.payment_session.wf()
        &&& self.payment_session.custody_consistent(self.escrow_ata)
        &&& self.payer_ata.address == self.payment_session.payer_ata
        &&& self.token_mint == self.payment_session.token_mint
    }

    /// Whether the deposit goes through: the session must still be
    /// `Initialized`, and the transfer of the session's amount from the
    /// funding account into custody, authorized by the payer's key, must
    /// pass every check of the transfer primitive.
    pub open spec fn can_deposit(self) -> bool {
        &&& self.payment_session.status is Initialized
        &&& transfer_admissible(
            self.payer_ata,
            self.escrow_ata,
            self.token_mint,
            self.payment_session.amount,
            Authority::Wallet(self.payer),
        )
    }

    /// The error a rejected deposit reports: a session outside
    /// `Initialized` is a state error; otherwise the transfer primitive's
    /// rejection bubbles up.
    pub open spec fn deposit_rejection(self) -> PaymentError {
        if !(self.payment_session.status is Initialized) {
            PaymentError::InvalidPaymentSessionState
        } else {
            transfer_rejection(
                self.payer_ata,
                self.escrow_ata,
                self.token_mint,
                self.payment_session.amount,
                Authority::Wallet(self.payer),
            )
        }
    }

    /// The state after a successful deposit at time `now`: the session's
    /// amount has moved from the funding account into custody, and the
    /// session is `Funded` with its funding time recorded. Every other field
    /// — the amount above all — is unchanged.
    pub open spec fn deposited(self, now: i64) -> DepositStablecoin {
        DepositStablecoin {
            payment_session: PaymentSession {
                status: PaymentSessionStatus::Funded,
                funded_ts: Some(now),
                ..self.payment_session
            },
            payer_ata: debited(self.payer_ata, self.payment_session.amount),
            escrow_ata: credited(self.escrow_ata, self.payment_session.amount),
            ..self
        }
    }

    /// Move exactly the session's amount from the payer's funding account
    /// into custody, advance the session to `Funded`, and log the funding
    /// snapshot — or reject and leave the session, both balances and the
    /// log untouched.
    pub fn deposit_stablecoin(&mut self, now: i64, log: &mut EventLog) -> (r: Result<
        (),
        PaymentError,
    >)
        requires
            old(self).wf(),
        ensures
            final(self).payment_session.amount == old(self).payment_session.amount,
            final(self).payment_session.token_mint == old(self).payment_session.token_mint,
            final(self).payment_session.uuid == old(self).payment_session.uuid,
            r is Ok <==> old(self).can_deposit(),
            r is Ok ==> *final(self) == old(self).deposited(now),
            r is Ok ==> final(self).wf(),
            r is Ok ==> final(self).escrow_ata.balance == old(self).payment_session.amount,
            r is Ok ==> lifecycle_edge(
                old(self).payment_session.status,
                final(self).payment_session.status,
            ),
            r is Ok ==> final(log)@ == old(log)@.push(
                PaymentEvent::Created(PaymentSessionCreated::of_session(final(self).payment_session)),
            ),
            r is Err ==> *final(self) == *old(self),
            r is Err ==> final(log)@ == old(log)@,
            r is Err ==> r == Err::<(), PaymentError>(old(self).deposit_rejection()),
    {
        if !(self.payment_session.status == PaymentSessionStatus::Initialized) {
            return Err(PaymentError::InvalidPaymentSessionState);
        }
        let amount = self.payment_session.amount;
        match transfer_checked(
            &mut self.payer_ata,
            &mut self.escrow_ata,
            self.token_mint,
            amount,
            Authority::Wallet(self.payer),
        ) {
            Ok(()) => {},
            Err(e) => {
                return Err(e);
            },
        }
        self.payment_session.status = PaymentSessionStatus::Funded;
        self.payment_session.funded_ts = Some(now);
        let event = PaymentSessionCreated::from_session(&self.payment_session);
        log.emit(PaymentEvent::Created(event));
        Ok(())
    }
}

/// Deposit is not idempotent on success: once a deposit has committed, the
/// session is `Funded`, so replaying it is rejected as a state error — and a
/// rejected deposit changes neither the session nor any balance, so custody
/// still holds exactly the amount the one successful deposit put there.
pub proof fn lemma_deposit_replay_fails(ctx: DepositStablecoin, now: i64)
    requires
        ctx.wf(),
        ctx.can_deposit(),
    ensures
        ctx.deposited(now).escrow_ata.balance == ctx.payment_session.amount,
        !ctx.deposited(now).can_deposit(),
        ctx.deposited(now).deposit_rejection() == PaymentError::InvalidPaymentSessionState,
{
}

} // verus!
