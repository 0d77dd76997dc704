//! Releasing custody towards the merchant: the two settlement instructions.
//!
//! `MarkPaymentSettled` moves custody into the bridging account that hands
//! off to the off-chain fiat payout pipeline and leaves the session
//! `PendingFiat`; `SettleDirect` moves custody straight to a
//! merchant-controlled destination and leaves the session `Settled`.

use vstd::prelude::*;

use crate::custody::Authority;
use crate::custody::TokenAccount;
use crate::custody::credited;
use crate::custody::debited;
use crate::custody::derive_settlement_authority;
use crate::custody::derived_authority;
use crate::custody::transfer_admissible;
use crate::custody::transfer_checked;
use crate::custody::transfer_rejection;
use crate::errors::PaymentError;
use crate::state::EventLog;
use crate::state::PaymentEvent;
use crate::state::PaymentSession;
use crate::state::PaymentSessionSettled;
use crate::state::PaymentSessionStatus;
use crate::state::lifecycle_edge;

verus! {

/// Everything the pending-fiat settlement works on: the session record, its
/// custody account, and the bridging account controlled by the off-chain
/// payout integration.
pub struct MarkPaymentSettled {
    /// The payer that opened the session.
    pub payer: u128,
    /// The session being settled.
    pub payment_session: PaymentSession,
    /// The payer's account; not touched by this instruction.
    pub payer_ata: TokenAccount,
    /// The session's custody account, the source of the settlement.
    pub escrow_ata: TokenAccount,
    /// The bridging account for the off-chain fiat payout, the destination.
    pub bitpay_ata: TokenAccount,
    /// The token type of the transfer; the session accepts no other.
    pub token_mint: u128,
}

impl MarkPaymentSettled {
    /// The settlement authority this instruction recomputes from the
    /// session's stored seed material to authorize the debit of custody.
    pub open spec fn presented_authority(self) -> Authority {
        Authority::Derived(
            derived_authority(
                self.payment_session.address,
                self.payment_session.uuid,
                self.payment_session.settlement_bump,
            ),
        )
    }

    /// Whether the accounts handed to the instruction are the ones the
    /// session record names: a well-formed session, its own custody
    /// account, the recorded payer account, and the session's token type.
    pub open spec fn wf(self) -> bool {
        &&& self.payment_session.wf()
        &&& self.payment_session.custody_consistent(self.escrow_ata)
        &&& self.payer_ata.address == self.payment_session.payer_ata
        &&& self.token_mint == self.payment_session.token_mint
    }

    /// Whether the settlement goes through: the session must be `Funded`,
    /// and the transfer of its amount out of custody into the bridging
    /// account, authorized by the recomputed settlement authority, must
    /// pass every check of the transfer primitive.
    pub open spec fn can_settle(self) -> bool {
        &&& self.payment_session.status is Funded
        &&& transfer_admissible(
            self.escrow_ata,
            self.bitpay_ata,
            self.token_mint,
            self.payment_session.amount,
            self.presented_authority(),
        )
    }

    /// The error a rejected settlement reports: a session outside `Funded`
    /// is a state error; otherwise the transfer primitive's rejection
    /// bubbles up, a destination of the wrong token type above all.
    pub open spec fn settle_rejection(self) -> PaymentError {
        if !(self.payment_session.status is Funded) {
            PaymentError::InvalidPaymentSessionState
        } else {
            transfer_rejection(
                self.escrow_ata,
                self.bitpay_ata,
                self.token_mint,
                self.payment_session.amount,
                self.presented_authority(),
            )
        }
    }

    /// The state after a successful pending-fiat settlement at time `now`:
    /// the session's amount has moved from custody into the bridging
    /// account, and the session is `PendingFiat` with its settlement time
    /// recorded. The off-chain payout id stays unset; a later step outside
    /// this engine fills it.
    pub open spec fn settled(self, now: i64) -> MarkPaymentSettled {
        MarkPaymentSettled {
            payment_session: PaymentSession {
                status: PaymentSessionStatus::PendingFiat,
                settled_ts: Some(now),
                ..self.payment_session
            },
            escrow_ata: debited(self.escrow_ata, self.payment_session.amount),
            bitpay_ata: credited(self.bitpay_ata, self.payment_session.amount),
            ..self
        }
    }

    /// Move exactly the session's amount from custody into the bridging
    /// account under the session's own settlement authority, advance the
    /// session to `PendingFiat`, and log the settlement snapshot — or
    /// reject and leave the session, both balances and the log untouched.
    /// On success custody is left empty.
    pub fn mark_payment_settled(&mut self, now: i64, log: &mut EventLog) -> (r: Result<
        (),
        PaymentError,
    >)
        requires
            old(self).wf(),
            old(self).bitpay_ata.balance + old(self).payment_session.amount <= u64::MAX,
        ensures
            final(self).payment_session.amount == old(self).payment_session.amount,
            final(self).payment_session.token_mint == old(self).payment_session.token_mint,
            final(self).payment_session.uuid == old(self).payment_session.uuid,
            r is Ok <==> old(self).can_settle(),
            r is Ok ==> *final(self) == old(self).settled(now),
            r is Ok ==> final(self).wf(),
            r is Ok ==> final(self).escrow_ata.balance == 0,
            r is Ok ==> final(self).bitpay_ata.balance == old(self).bitpay_ata.balance as int
                + old(self).payment_session.amount as int,
            r is Ok ==> lifecycle_edge(
                old(self).payment_session.status,
                final(self).payment_session.status,
            ),
            r is Ok ==> final(log)@ == old(log)@.push(
                PaymentEvent::Settled(
                    PaymentSessionSettled::of_session(final(self).payment_session),
                ),
            ),
            r is Err ==> *final(self) == *old(self),
            r is Err ==> final(log)@ == old(log)@,
            r is Err ==> r == Err::<(), PaymentError>(old(self).settle_rejection()),
    {
        if !(self.payment_session.status == PaymentSessionStatus::Funded) {
            return Err(PaymentError::InvalidPaymentSessionState);
        }
        let authority = derive_settlement_authority(
            self.payment_session.address,
            self.payment_session.uuid,
            self.payment_session.settlement_bump,
        );
        let amount = self.payment_session.amount;
        match transfer_checked(
            &mut self.escrow_ata,
            &mut self.bitpay_ata,
            self.token_mint,
            amount,
            Authority::Derived(authority),
        ) {
            Ok(()) => {},
            Err(e) => {
                return Err(e);
            },
        }
        self.payment_session.status = PaymentSessionStatus::PendingFiat;
        self.payment_session.settled_ts = Some(now);
        let event = PaymentSessionSettled::from_session(&self.payment_session);
        log.emit(PaymentEvent::Settled(event));
        Ok(())
    }
}

/// Settlement is not idempotent on success: once it has committed, the
/// session is `PendingFiat`, so replaying it is rejected as a state error,
/// and a rejected settlement changes nothing.
pub proof fn lemma_settle_replay_fails(ctx: MarkPaymentSettled, now: i64)
    requires
        ctx.wf(),
        ctx.can_settle(),
    ensures
        ctx.settled(now).escrow_ata.balance == 0,
        !ctx.settled(now).can_settle(),
        ctx.settled(now).settle_rejection() == PaymentError::InvalidPaymentSessionState,
{
}

/// Everything the direct settlement works on: the session record, its
/// custody account, the merchant-controlled destination, and the merchant
/// identity the destination is expected to answer to.
pub struct SettleDirect {
    /// The payer that opened the session.
    pub payer: u128,
    /// The session being settled.
    pub payment_session: PaymentSession,
    /// The session's custody account, the source of the settlement.
    pub escrow_ata: TokenAccount,
    /// The merchant's destination account.
    pub merchant_ata: TokenAccount,
    /// The merchant identity expected to control `merchant_ata`.
    pub merchant: u128,
    /// The token type of the transfer; the session accepts no other.
    pub token_mint: u128,
}

impl SettleDirect {
    /// The settlement authority this instruction recomputes from the
    /// session's stored seed material to authorize the debit of custody.
    pub open spec fn presented_authority(self) -> Authority {
        Authority::Derived(
            derived_authority(
                self.payment_session.address,
                self.payment_session.uuid,
                self.payment_session.settlement_bump,
            ),
        )
    }

    /// Whether the accounts handed to the instruction are the ones the
    /// session record names: a well-formed session, its own custody
    /// account, and the session's token type.
    pub open spec fn wf(self) -> bool {
        &&& self.payment_session.wf()
        &&& self.payment_session.custody_consistent(self.escrow_ata)
        &&& self.token_mint == self.payment_session.token_mint
    }

    /// Whether the direct settlement goes through: the session must be
    /// `Funded`, the destination must hold the session's token type and be
    /// controlled by the expected merchant, and the transfer out of custody
    /// must pass every check of the transfer primitive.
    pub open spec fn can_settle_direct(self) -> bool {
        &&& self.payment_session.status is Funded
        &&& self.merchant_ata.mint == self.token_mint
        &&& self.merchant_ata.owner == Authority::Wallet(self.merchant)
        &&& transfer_admissible(
            self.escrow_ata,
            self.merchant_ata,
            self.token_mint,
            self.payment_session.amount,
            self.presented_authority(),
        )
    }

    /// The error a rejected direct settlement reports, in the order the
    /// checks run: state first, then the destination's token type, then the
    /// destination's owner against the expected merchant, then whatever the
    /// transfer primitive rejects. A destination of the wrong token type is
    /// always a token-type error, whoever owns it.
    pub open spec fn settle_direct_rejection(self) -> PaymentError {
        if !(self.payment_session.status is Funded) {
            PaymentError::InvalidPaymentSessionState
        } else if self.merchant_ata.mint != self.token_mint {
            PaymentError::InvalidMint
        } else if self.merchant_ata.owner != Authority::Wallet(self.merchant) {
            PaymentError::InvalidMerchant
        } else {
            transfer_rejection(
                self.escrow_ata,
                self.merchant_ata,
                self.token_mint,
                self.payment_session.amount,
                self.presented_authority(),
            )
        }
    }

    /// The state after a successful direct settlement at time `now`: the
    /// session's amount has moved from custody to the merchant's account,
    /// and the session is `Settled` with its settlement time recorded.
    pub open spec fn settled_direct(self, now: i64) -> SettleDirect {
        SettleDirect {
            payment_session: PaymentSession {
                status: PaymentSessionStatus::Settled,
                settled_ts: Some(now),
                ..self.payment_session
            },
            escrow_ata: debited(self.escrow_ata, self.payment_session.amount),
            merchant_ata: credited(self.merchant_ata, self.payment_session.amount),
            ..self
        }
    }

    /// Move exactly the session's amount from custody to the merchant's
    /// destination under the session's own settlement authority, advance
    /// the session to `Settled`, and log the settlement snapshot — or
    /// reject and leave the session, both balances and the log untouched.
    /// The destination must declare the session's token type and be
    /// controlled by the expected merchant. On success custody is left
    /// empty.
    pub fn settle_direct(&mut self, now: i64, log: &mut EventLog) -> (r: Result<
        (),
        PaymentError,
    >)
        requires
            old(self).wf(),
            old(self).merchant_ata.balance + old(self).payment_session.amount <= u64::MAX,
        ensures
            final(self).payment_session.amount == old(self).payment_session.amount,
            final(self).payment_session.token_mint == old(self).payment_session.token_mint,
            final(self).payment_session.uuid == old(self).payment_session.uuid,
            r is Ok <==> old(self).can_settle_direct(),
            r is Ok ==> *final(self) == old(self).settled_direct(now),
            r is Ok ==> final(self).wf(),
            r is Ok ==> final(self).escrow_ata.balance == 0,
            r is Ok ==> final(self).merchant_ata.balance == old(self).merchant_ata.balance as int
                + old(self).payment_session.amount as int,
            r is Ok ==> lifecycle_edge(
                old(self).payment_session.status,
                final(self).payment_session.status,
            ),
            r is Ok ==> final(log)@ == old(log)@.push(
                PaymentEvent::Settled(
                    PaymentSessionSettled::of_session(final(self).payment_session),
                ),
            ),
            r is Err ==> *final(self) == *old(self),
            r is Err ==> final(log)@ == old(log)@,
            r is Err ==> r == Err::<(), PaymentError>(old(self).settle_direct_rejection()),
    {
        if !(self.payment_session.status == PaymentSessionStatus::Funded) {
            return Err(PaymentError::InvalidPaymentSessionState);
        }
        if self.merchant_ata.mint != self.token_mint {
            return Err(PaymentError::InvalidMint);
        }
        if !(self.merchant_ata.owner == Authority::Wallet(self.merchant)) {
            return Err(PaymentError::InvalidMerchant);
        }
        let authority = derive_settlement_authority(
            self.payment_session.address,
            self.payment_session.uuid,
            self.payment_session.settlement_bump,
        );
        let amount = self.payment_session.amount;
        match transfer_checked(
            &mut self.escrow_ata,
            &mut self.merchant_ata,
            self.token_mint,
            amount,
            Authority::Derived(authority),
        ) {
            Ok(()) => {},
            Err(e) => {
                return Err(e);
            },
        }
        self.payment_session.status = PaymentSessionStatus::Settled;
        self.payment_session.settled_ts = Some(now);
        let event = PaymentSessionSettled::from_session(&self.payment_session);
        log.emit(PaymentEvent::Settled(event));
        Ok(())
    }
}

/// Direct settlement is not idempotent on success either: once it has
/// committed, the session is `Settled`, so replaying it is rejected as a
/// state error, and a rejected settlement changes nothing.
pub proof fn lemma_settle_direct_replay_fails(ctx: SettleDirect, now: i64)
    requires
        ctx.wf(),
        ctx.can_settle_direct(),
    ensures
        ctx.settled_direct(now).escrow_ata.balance == 0,
        !ctx.settled_direct(now).can_settle_direct(),
        ctx.settled_direct(now).settle_direct_rejection()
            == PaymentError::InvalidPaymentSessionState,
{
}

} // verus!
