//! Creating a payment session: the `Init` instruction.

use vstd::prelude::*;

use crate::custody::Authority;
use crate::custody::TokenAccount;
use crate::custody::derive_settlement_authority;
use crate::custody::derived_authority;
use crate::state::EventLog;
use crate::state::MAX_FIELD_LEN;
use crate::state::PaymentEvent;
use crate::state::PaymentSession;
use crate::state::PaymentSessionCreated;
use crate::state::PaymentSessionStatus;

verus! {

/// How many time units after its creation a session is declared expired.
/// Expiry is advisory data for external monitors; no instruction enforces
/// it.
pub const EXPIRY_DELAY: i64 = 60;

/// Everything the `Init` instruction works on: the payer's identity and
/// funding account, the accepted token type, the addresses and salts the
/// runtime assigned to the new record and its custody account, and the
/// current time.
pub struct InitPaymentSession {
    /// The funding party; must control `payer_ata`.
    pub payer: u128,
    /// The payer's funding account, holding the accepted token type.
    pub payer_ata: TokenAccount,
    /// The token type this session accepts.
    pub token_mint: u128,
    /// Address assigned to the new session record.
    pub session_address: u128,
    /// Address assigned to the new custody account.
    pub escrow_address: u128,
    /// Salt of the session record's derived address.
    pub bump: u8,
    /// Salt discovered for the settlement authority's derivation.
    pub settlement_bump: u8,
    /// The current time, read from the clock source.
    pub now: i64,
}

impl InitPaymentSession {
    /// Whether the accounts handed to `Init` fit together: the payer's
    /// funding account holds the accepted token type and is controlled by
    /// the payer, and the declared expiry stays representable.
    pub open spec fn wf(self) -> bool {
        &&& self.payer_ata.mint == self.token_mint
        &&& self.payer_ata.owner == Authority::Wallet(self.payer)
        &&& self.now + EXPIRY_DELAY <= i64::MAX
    }

    /// The session record `initialize` creates from the given arguments.
    pub open spec fn session_of(
        self,
        uuid: u128,
        merchant_id: String,
        amount: u64,
        reference_id: String,
        fiat_currency: String,
        merchant_bank: String,
    ) -> PaymentSession {
        PaymentSession {
            address: self.session_address,
            payer: self.payer,
            merchant_id,
            amount,
            token_mint: self.token_mint,
            escrow_ata: self.escrow_address,
            payer_ata: self.payer_ata.address,
            status: PaymentSessionStatus::Initialized,
            expiry_ts: (self.now + EXPIRY_DELAY) as i64,
            created_ts: self.now,
            funded_ts: None,
            settled_ts: None,
            bump: self.bump,
            reference_id,
            settlement_authority: derived_authority(
                self.session_address,
                uuid,
                self.settlement_bump,
            ),
            settlement_bump: self.settlement_bump,
            uuid,
            fiat_currency,
            merchant_bank,
            bitpay_payout_id: None,
        }
    }

    /// The empty custody account `initialize` creates: it holds the
    /// session's token type and is exclusively controlled by the derived
    /// settlement authority.
    pub open spec fn escrow_of(self, uuid: u128) -> TokenAccount {
        TokenAccount {
            address: self.escrow_address,
            mint: self.token_mint,
            owner: Authority::Derived(
                derived_authority(self.session_address, uuid, self.settlement_bump),
            ),
            balance: 0,
        }
    }

    /// Create the session record and its empty custody account, and log the
    /// creation. The record starts as `Initialized` with the given positive
    /// amount, which no later instruction ever changes; the custody account
    /// starts empty and answers only to the settlement authority derived
    /// from this session's identity.
    pub fn initialize(
        &self,
        uuid: u128,
        merchant_id: String,
        amount: u64,
        reference_id: String,
        fiat_currency: String,
        merchant_bank: String,
        log: &mut EventLog,
    ) -> (r: (PaymentSession, TokenAccount))
        requires
            self.wf(),
            amount > 0,
            merchant_id@.len() <= MAX_FIELD_LEN,
            reference_id@.len() <= MAX_FIELD_LEN,
            fiat_currency@.len() <= MAX_FIELD_LEN,
            merchant_bank@.len() <= MAX_FIELD_LEN,
        ensures
            r.0 == self.session_of(
                uuid,
                merchant_id,
                amount,
                reference_id,
                fiat_currency,
                merchant_bank,
            ),
            r.1 == self.escrow_of(uuid),
            r.0.wf(),
            r.0.custody_consistent(r.1),
            final(log)@ == old(log)@.push(
                PaymentEvent::Created(PaymentSessionCreated::of_session(r.0)),
            ),
    {
        let settlement_authority = derive_settlement_authority(
            self.session_address,
            uuid,
            self.settlement_bump,
        );
        let escrow = TokenAccount {
            address: self.escrow_address,
            mint: self.token_mint,
            owner: Authority::Derived(settlement_authority),
            balance: 0,
        };
        let session = PaymentSession {
            address: self.session_address,
            payer: self.payer,
            merchant_id,
            amount,
            token_mint: self.token_mint,
            escrow_ata: self.escrow_address,
            payer_ata: self.payer_ata.address,
            status: PaymentSessionStatus::Initialized,
            expiry_ts: self.now + EXPIRY_DELAY,
            created_ts: self.now,
            funded_ts: None,
            settled_ts: None,
            bump: self.bump,
            reference_id,
            settlement_authority,
            settlement_bump: self.settlement_bump,
            uuid,
            fiat_currency,
            merchant_bank,
            bitpay_payout_id: None,
        };
        let event = PaymentSessionCreated::from_session(&session);
        log.emit(PaymentEvent::Created(event));
        (session, escrow)
    }
}

} // verus!
