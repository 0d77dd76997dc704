//! End-to-end scenarios for the settlement engine: the full lifecycle paths,
//! the replay rejections, and every error kind.

use payment_escrow::custody::Authority;
use payment_escrow::custody::SettlementAuthority;
use payment_escrow::custody::TokenAccount;
use payment_escrow::custody::derive_settlement_authority;
use payment_escrow::custody::transfer_checked;
use payment_escrow::errors::PaymentError;
use payment_escrow::instructions::deposit_stablecoin::DepositStablecoin;
use payment_escrow::instructions::init_payment_session::InitPaymentSession;
use payment_escrow::instructions::mark_payment_settled::MarkPaymentSettled;
use payment_escrow::instructions::mark_payment_settled::SettleDirect;
use payment_escrow::instructions::refund_payment::RefundPayment;
use payment_escrow::state::EventLog;
use payment_escrow::state::PaymentEvent;
use payment_escrow::state::PaymentSession;
use payment_escrow::state::PaymentSessionStatus;

const PAYER: u128 = 1;
const MINT: u128 = 5;
const PAYER_ATA: u128 = 10;
const SESSION_ADDR: u128 = 100;
const ESCROW_ADDR: u128 = 101;
const UUID: u128 = 0xA1;

fn init_ctx(payer_balance: u64) -> InitPaymentSession {
    InitPaymentSession {
        payer: PAYER,
        payer_ata: TokenAccount {
            address: PAYER_ATA,
            mint: MINT,
            owner: Authority::Wallet(PAYER),
            balance: payer_balance,
        },
        token_mint: MINT,
        session_address: SESSION_ADDR,
        escrow_address: ESCROW_ADDR,
        bump: 3,
        settlement_bump: 4,
        now: 1_000,
    }
}

fn init_session(payer_balance: u64, log: &mut EventLog) -> (PaymentSession, TokenAccount, TokenAccount) {
    let ctx = init_ctx(payer_balance);
    let payer_ata = ctx.payer_ata;
    let (session, escrow) = ctx.initialize(
        UUID,
        "M1".to_string(),
        1000,
        "R1".to_string(),
        "EUR".to_string(),
        "BANK1".to_string(),
        log,
    );
    (session, payer_ata, escrow)
}

fn funded_session(payer_balance: u64, log: &mut EventLog) -> DepositStablecoin {
    let (session, payer_ata, escrow) = init_session(payer_balance, log);
    let mut dep = DepositStablecoin {
        payer: PAYER,
        payment_session: session,
        payer_ata,
        escrow_ata: escrow,
        token_mint: MINT,
    };
    let r = dep.deposit_stablecoin(2_000, log);
    assert_eq!(r, Ok(()));
    dep
}

#[test]
fn test_init_creates_initialized_session() {
    let mut log = EventLog::new();
    let (session, _payer_ata, escrow) = init_session(5_000, &mut log);
    assert_eq!(session.status, PaymentSessionStatus::Initialized);
    assert_eq!(session.amount, 1000);
    assert_eq!(session.payer, PAYER);
    assert_eq!(session.token_mint, MINT);
    assert_eq!(session.uuid, UUID);
    assert_eq!(session.merchant_id, "M1");
    assert_eq!(session.reference_id, "R1");
    assert_eq!(session.fiat_currency, "EUR");
    assert_eq!(session.merchant_bank, "BANK1");
    assert_eq!(session.created_ts, 1_000);
    assert_eq!(session.expiry_ts, 1_060);
    assert_eq!(session.funded_ts, None);
    assert_eq!(session.settled_ts, None);
    assert_eq!(session.bitpay_payout_id, None);
    assert_eq!(
        session.settlement_authority,
        SettlementAuthority { session_address: SESSION_ADDR, uuid: UUID, bump: 4 }
    );
    assert_eq!(escrow.balance, 0);
    assert_eq!(escrow.mint, MINT);
    assert_eq!(escrow.owner, Authority::Derived(session.settlement_authority));
    assert_eq!(log.len(), 1);
    match &log.events[0] {
        PaymentEvent::Created(e) => {
            assert_eq!(e.status, PaymentSessionStatus::Initialized);
            assert_eq!(e.amount, 1000);
        }
        _ => panic!("expected a creation event"),
    }
}

#[test]
fn test_deposit_funds_session() {
    let mut log = EventLog::new();
    let dep = funded_session(5_000, &mut log);
    assert_eq!(dep.payment_session.status, PaymentSessionStatus::Funded);
    assert_eq!(dep.payment_session.funded_ts, Some(2_000));
    assert_eq!(dep.escrow_ata.balance, 1000);
    assert_eq!(dep.payer_ata.balance, 4_000);
    assert_eq!(log.len(), 2);
    match &log.events[1] {
        PaymentEvent::Created(e) => {
            assert_eq!(e.status, PaymentSessionStatus::Funded);
            assert_eq!(e.funded_ts, Some(2_000));
        }
        _ => panic!("expected a funding event"),
    }
}

#[test]
fn test_deposit_replay_fails() {
    let mut log = EventLog::new();
    let mut dep = funded_session(5_000, &mut log);
    let events_before = log.len();
    let r = dep.deposit_stablecoin(2_500, &mut log);
    assert_eq!(r, Err(PaymentError::InvalidPaymentSessionState));
    assert_eq!(dep.payment_session.status, PaymentSessionStatus::Funded);
    assert_eq!(dep.escrow_ata.balance, 1000);
    assert_eq!(dep.payer_ata.balance, 4_000);
    assert_eq!(log.len(), events_before);
}

#[test]
fn test_deposit_insufficient_funds() {
    let mut log = EventLog::new();
    let (session, payer_ata, escrow) = init_session(999, &mut log);
    let mut dep = DepositStablecoin {
        payer: PAYER,
        payment_session: session,
        payer_ata,
        escrow_ata: escrow,
        token_mint: MINT,
    };
    let r = dep.deposit_stablecoin(2_000, &mut log);
    assert_eq!(r, Err(PaymentError::InsufficientEscrowFunds));
    assert_eq!(dep.payment_session.status, PaymentSessionStatus::Initialized);
    assert_eq!(dep.escrow_ata.balance, 0);
    assert_eq!(dep.payer_ata.balance, 999);
    assert_eq!(log.len(), 1);
}

#[test]
fn test_deposit_wrong_signer_rejected() {
    let mut log = EventLog::new();
    let (session, payer_ata, escrow) = init_session(5_000, &mut log);
    let mut dep = DepositStablecoin {
        payer: 999,
        payment_session: session,
        payer_ata,
        escrow_ata: escrow,
        token_mint: MINT,
    };
    let r = dep.deposit_stablecoin(2_000, &mut log);
    assert_eq!(r, Err(PaymentError::InvalidMerchant));
    assert_eq!(dep.payment_session.status, PaymentSessionStatus::Initialized);
    assert_eq!(dep.escrow_ata.balance, 0);
}

#[test]
fn test_refund_scenario() {
    let mut log = EventLog::new();
    let dep = funded_session(5_000, &mut log);
    let mut rf = RefundPayment {
        payer: PAYER,
        payment_session: dep.payment_session,
        payer_ata: dep.payer_ata,
        escrow_ata: dep.escrow_ata,
        token_mint: MINT,
    };
    let r = rf.refund_payment(&mut log);
    assert_eq!(r, Ok(()));
    assert_eq!(rf.payment_session.status, PaymentSessionStatus::Refunded);
    assert_eq!(rf.escrow_ata.balance, 0);
    assert_eq!(rf.payer_ata.balance, 5_000);
    assert_eq!(log.len(), 3);
    match &log.events[2] {
        PaymentEvent::Refunded(e) => {
            assert_eq!(e.status, PaymentSessionStatus::Refunded);
            assert_eq!(e.amount, 1000);
            assert_eq!(e.payer, PAYER);
        }
        _ => panic!("expected a refund event"),
    }
}

#[test]
fn test_refund_replay_fails() {
    let mut log = EventLog::new();
    let dep = funded_session(5_000, &mut log);
    let mut rf = RefundPayment {
        payer: PAYER,
        payment_session: dep.payment_session,
        payer_ata: dep.payer_ata,
        escrow_ata: dep.escrow_ata,
        token_mint: MINT,
    };
    assert_eq!(rf.refund_payment(&mut log), Ok(()));
    let events_before = log.len();
    let r = rf.refund_payment(&mut log);
    assert_eq!(r, Err(PaymentError::InvalidPaymentSessionState));
    assert_eq!(rf.escrow_ata.balance, 0);
    assert_eq!(rf.payer_ata.balance, 5_000);
    assert_eq!(log.len(), events_before);
}

#[test]
fn test_refund_mint_mismatch() {
    let mut log = EventLog::new();
    let dep = funded_session(5_000, &mut log);
    let mut wrong_dest = dep.payer_ata;
    wrong_dest.mint = MINT + 1;
    let mut rf = RefundPayment {
        payer: PAYER,
        payment_session: dep.payment_session,
        payer_ata: wrong_dest,
        escrow_ata: dep.escrow_ata,
        token_mint: MINT,
    };
    let r = rf.refund_payment(&mut log);
    assert_eq!(r, Err(PaymentError::InvalidMint));
    assert_eq!(rf.payment_session.status, PaymentSessionStatus::Funded);
    assert_eq!(rf.escrow_ata.balance, 1000);
    assert_eq!(rf.payer_ata.balance, 4_000);
}

#[test]
fn test_settle_pending_fiat_scenario() {
    let mut log = EventLog::new();
    let dep = funded_session(5_000, &mut log);
    let mut settle = MarkPaymentSettled {
        payer: PAYER,
        payment_session: dep.payment_session,
        payer_ata: dep.payer_ata,
        escrow_ata: dep.escrow_ata,
        bitpay_ata: TokenAccount {
            address: 200,
            mint: MINT,
            owner: Authority::Wallet(42),
            balance: 0,
        },
        token_mint: MINT,
    };
    let r = settle.mark_payment_settled(3_000, &mut log);
    assert_eq!(r, Ok(()));
    assert_eq!(settle.payment_session.status, PaymentSessionStatus::PendingFiat);
    assert_eq!(settle.payment_session.settled_ts, Some(3_000));
    assert_eq!(settle.escrow_ata.balance, 0);
    assert_eq!(settle.bitpay_ata.balance, 1000);
    assert_eq!(log.len(), 3);
    match &log.events[2] {
        PaymentEvent::Settled(e) => {
            assert_eq!(e.status, PaymentSessionStatus::PendingFiat);
            assert_eq!(e.amount, 1000);
        }
        _ => panic!("expected a settlement event"),
    }
}

#[test]
fn test_settle_replay_fails() {
    let mut log = EventLog::new();
    let dep = funded_session(5_000, &mut log);
    let mut settle = MarkPaymentSettled {
        payer: PAYER,
        payment_session: dep.payment_session,
        payer_ata: dep.payer_ata,
        escrow_ata: dep.escrow_ata,
        bitpay_ata: TokenAccount {
            address: 200,
            mint: MINT,
            owner: Authority::Wallet(42),
            balance: 0,
        },
        token_mint: MINT,
    };
    assert_eq!(settle.mark_payment_settled(3_000, &mut log), Ok(()));
    let r = settle.mark_payment_settled(3_100, &mut log);
    assert_eq!(r, Err(PaymentError::InvalidPaymentSessionState));
    assert_eq!(settle.escrow_ata.balance, 0);
    assert_eq!(settle.bitpay_ata.balance, 1000);
}

#[test]
fn test_settle_pending_fiat_mint_mismatch() {
    let mut log = EventLog::new();
    let dep = funded_session(5_000, &mut log);
    let mut settle = MarkPaymentSettled {
        payer: PAYER,
        payment_session: dep.payment_session,
        payer_ata: dep.payer_ata,
        escrow_ata: dep.escrow_ata,
        bitpay_ata: TokenAccount {
            address: 200,
            mint: MINT + 7,
            owner: Authority::Wallet(42),
            balance: 0,
        },
        token_mint: MINT,
    };
    let r = settle.mark_payment_settled(3_000, &mut log);
    assert_eq!(r, Err(PaymentError::InvalidMint));
    assert_eq!(settle.payment_session.status, PaymentSessionStatus::Funded);
    assert_eq!(settle.escrow_ata.balance, 1000);
    assert_eq!(settle.bitpay_ata.balance, 0);
}

#[test]
fn test_settle_direct_scenario() {
    let mut log = EventLog::new();
    let dep = funded_session(5_000, &mut log);
    let mut settle = SettleDirect {
        payer: PAYER,
        payment_session: dep.payment_session,
        escrow_ata: dep.escrow_ata,
        merchant_ata: TokenAccount {
            address: 300,
            mint: MINT,
            owner: Authority::Wallet(77),
            balance: 50,
        },
        merchant: 77,
        token_mint: MINT,
    };
    let r = settle.settle_direct(3_000, &mut log);
    assert_eq!(r, Ok(()));
    assert_eq!(settle.payment_session.status, PaymentSessionStatus::Settled);
    assert_eq!(settle.payment_session.settled_ts, Some(3_000));
    assert_eq!(settle.escrow_ata.balance, 0);
    assert_eq!(settle.merchant_ata.balance, 1_050);
    match &log.events[2] {
        PaymentEvent::Settled(e) => {
            assert_eq!(e.status, PaymentSessionStatus::Settled);
            assert_eq!(e.amount, 1000);
        }
        _ => panic!("expected a settlement event"),
    }
}

#[test]
fn test_settle_direct_wrong_merchant() {
    let mut log = EventLog::new();
    let dep = funded_session(5_000, &mut log);
    let mut settle = SettleDirect {
        payer: PAYER,
        payment_session: dep.payment_session,
        escrow_ata: dep.escrow_ata,
        merchant_ata: TokenAccount {
            address: 300,
            mint: MINT,
            owner: Authority::Wallet(78),
            balance: 50,
        },
        merchant: 77,
        token_mint: MINT,
    };
    let r = settle.settle_direct(3_000, &mut log);
    assert_eq!(r, Err(PaymentError::InvalidMerchant));
    assert_eq!(settle.payment_session.status, PaymentSessionStatus::Funded);
    assert_eq!(settle.escrow_ata.balance, 1000);
    assert_eq!(settle.merchant_ata.balance, 50);
}

#[test]
fn test_settle_direct_mint_beats_merchant() {
    let mut log = EventLog::new();
    let dep = funded_session(5_000, &mut log);
    let mut settle = SettleDirect {
        payer: PAYER,
        payment_session: dep.payment_session,
        escrow_ata: dep.escrow_ata,
        merchant_ata: TokenAccount {
            address: 300,
            mint: MINT + 1,
            owner: Authority::Wallet(78),
            balance: 50,
        },
        merchant: 77,
        token_mint: MINT,
    };
    let r = settle.settle_direct(3_000, &mut log);
    assert_eq!(r, Err(PaymentError::InvalidMint));
    assert_eq!(settle.escrow_ata.balance, 1000);
}

#[test]
fn test_transfer_mint_mismatch_changes_nothing() {
    let mut source = TokenAccount {
        address: 1,
        mint: MINT,
        owner: Authority::Wallet(PAYER),
        balance: 500,
    };
    let mut dest = TokenAccount {
        address: 2,
        mint: MINT + 1,
        owner: Authority::Wallet(2),
        balance: 7,
    };
    let r = transfer_checked(&mut source, &mut dest, MINT, 100, Authority::Wallet(PAYER));
    assert_eq!(r, Err(PaymentError::InvalidMint));
    assert_eq!(source.balance, 500);
    assert_eq!(dest.balance, 7);
}

#[test]
fn test_foreign_authority_never_debits() {
    let authority_b = derive_settlement_authority(SESSION_ADDR, UUID, 4);
    let mut custody_b = TokenAccount {
        address: ESCROW_ADDR,
        mint: MINT,
        owner: Authority::Derived(authority_b),
        balance: 1000,
    };
    let mut dest = TokenAccount {
        address: 2,
        mint: MINT,
        owner: Authority::Wallet(PAYER),
        balance: 0,
    };
    // Session A shares the payer but has a different id, so its derived
    // authority must not move session B's custody.
    let authority_a = derive_settlement_authority(SESSION_ADDR + 1, UUID + 1, 4);
    let r = transfer_checked(&mut custody_b, &mut dest, MINT, 1000, Authority::Derived(authority_a));
    assert_eq!(r, Err(PaymentError::InvalidMerchant));
    assert_eq!(custody_b.balance, 1000);
    assert_eq!(dest.balance, 0);
    // The session's own authority, recomputed from the same seed material,
    // does move it.
    let own = derive_settlement_authority(SESSION_ADDR, UUID, 4);
    let r2 = transfer_checked(&mut custody_b, &mut dest, MINT, 1000, Authority::Derived(own));
    assert_eq!(r2, Ok(()));
    assert_eq!(custody_b.balance, 0);
    assert_eq!(dest.balance, 1000);
}

#[test]
fn test_transfer_insufficient_funds() {
    let mut source = TokenAccount {
        address: 1,
        mint: MINT,
        owner: Authority::Wallet(PAYER),
        balance: 99,
    };
    let mut dest = TokenAccount {
        address: 2,
        mint: MINT,
        owner: Authority::Wallet(2),
        balance: 0,
    };
    let r = transfer_checked(&mut source, &mut dest, MINT, 100, Authority::Wallet(PAYER));
    assert_eq!(r, Err(PaymentError::InsufficientEscrowFunds));
    assert_eq!(source.balance, 99);
    assert_eq!(dest.balance, 0);
}

#[test]
fn test_status_default_is_initialized() {
    assert_eq!(PaymentSessionStatus::default(), PaymentSessionStatus::Initialized);
}

#[test]
fn test_init_accepts_longest_fields() {
    let mut log = EventLog::new();
    let ctx = init_ctx(2_000);
    let long = "x".repeat(50);
    let (session, _escrow) = ctx.initialize(
        UUID,
        long.clone(),
        1,
        long.clone(),
        long.clone(),
        long.clone(),
        &mut log,
    );
    assert_eq!(session.merchant_id.len(), 50);
    assert_eq!(session.amount, 1);
    assert_eq!(session.status, PaymentSessionStatus::Initialized);
}

#[test]
fn test_error_messages() {
    assert_eq!(
        PaymentError::InvalidMerchant.message(),
        "The merchant account provided does not match the payment session's merchant ID."
    );
    assert_eq!(
        PaymentError::InvalidMint.message(),
        "The token mint provided does not match the payment session's token mint."
    );
    assert_eq!(
        PaymentError::InvalidPaymentSessionState.message(),
        "The payment session is not in a state that allows this operation."
    );
    assert_eq!(
        PaymentError::InsufficientEscrowFunds.message(),
        "Insufficient funds in the escrow account to complete the settlement."
    );
}
