//! The value-custody ledger: token accounts, the derived settlement
//! authority, and the checked transfer primitive.

use vstd::prelude::*;

use crate::errors::PaymentError;

verus! {

/// A settlement authority: a keyless capability scoped to exactly one
/// payment session. It is not a held secret; anyone can recompute it from
/// the session record's address, the session's unique id and the small salt
/// discovered at session creation. The type itself stands for the fixed
/// derivation label, so an authority of this type can never collide with any
/// other kind of identity.
#[derive(Clone, Copy, Debug, PartialEq, Eq, Structural)]
pub struct SettlementAuthority {
    /// Address of the session record the authority is bound to.
    pub session_address: u128,
    /// The session's unique 128-bit id.
    pub uuid: u128,
    /// The salt discovered once at session creation.
    pub bump: u8,
}

/// Who controls a token account: a wallet holding a real signing key, or a
/// derived settlement authority with no key at all.
#[derive(Clone, Copy, Debug, PartialEq, Eq, Structural)]
pub enum Authority {
    /// An externally held key, identified by its address.
    Wallet(u128),
    /// A keyless authority derived from a session's identity.
    Derived(SettlementAuthority),
}

/// One account of the value-custody ledger: it holds `balance` units of the
/// token type `mint` and may only be debited by `owner`.
#[derive(Clone, Copy, Debug, PartialEq, Eq, Structural)]
pub struct TokenAccount {
    /// The account's own address.
    pub address: u128,
    /// The token type the account holds.
    pub mint: u128,
    /// The only party allowed to debit the account.
    pub owner: Authority,
    /// How many units the account currently holds.
    pub balance: u64,
}

/// The settlement authority derived for the session with record address
/// `session_address`, id `uuid` and salt `bump`. The session id is part of
/// the seed material, so two sessions never share an authority.
pub open spec fn derived_authority(session_address: u128, uuid: u128, bump: u8) -> SettlementAuthority {
    SettlementAuthority { session_address, uuid, bump }
}

/// Recompute the settlement authority for a session from its stored seed
/// material. Instructions call this instead of holding the authority as a
/// transmittable secret: the capability is validated by recomputation.
pub fn derive_settlement_authority(session_address: u128, uuid: u128, bump: u8) -> (r: SettlementAuthority)
    ensures
        r == derived_authority(session_address, uuid, bump),
{
    SettlementAuthority { session_address, uuid, bump }
}

/// Whether a checked transfer of `amount` units of `mint` out of `source`
/// into `dest`, presented by `authority`, passes every precondition: both
/// accounts hold the requested token type, the presenter controls the
/// source, and the source holds at least `amount`.
pub open spec fn transfer_admissible(
    source: TokenAccount,
    dest: TokenAccount,
    mint: u128,
    amount: u64,
    authority: Authority,
) -> bool {
    &&& dest.mint == mint
    &&& source.mint == mint
    &&& source.owner == authority
    &&& source.balance >= amount
}

/// The error a checked transfer reports when it is not admissible: token-type
/// mismatches are reported first, then a wrong authority, then missing funds.
pub open spec fn transfer_rejection(
    source: TokenAccount,
    dest: TokenAccount,
    mint: u128,
    amount: u64,
    authority: Authority,
) -> PaymentError {
    if dest.mint != mint {
        PaymentError::InvalidMint
    } else if source.mint != mint {
        PaymentError::InvalidMint
    } else if source.owner != authority {
        PaymentError::InvalidMerchant
    } else {
        PaymentError::InsufficientEscrowFunds
    }
}

/// `account` after `amount` units have left it.
pub open spec fn debited(account: TokenAccount, amount: u64) -> TokenAccount {
    TokenAccount {
        address: account.address,
        mint: account.mint,
        owner: account.owner,
        balance: (account.balance - amount) as u64,
    }
}

/// `account` after `amount` units have arrived in it.
pub open spec fn credited(account: TokenAccount, amount: u64) -> TokenAccount {
    TokenAccount {
        address: account.address,
        mint: account.mint,
        owner: account.owner,
        balance: (account.balance + amount) as u64,
    }
}

/// The checked transfer primitive: move exactly `amount` units of `mint`
/// from `source` to `dest`, authorized by `authority`. Every precondition is
/// checked before any balance changes, so a rejected transfer moves nothing:
/// the operation is all-or-nothing and never partial.
pub fn transfer_checked(
    source: &mut TokenAccount,
    dest: &mut TokenAccount,
    mint: u128,
    amount: u64,
    authority: Authority,
) -> (r: Result<(), PaymentError>)
    requires
        transfer_admissible(*old(source), *old(dest), mint, amount, authority) ==> old(dest).balance
            + amount <= u64::MAX,
    ensures
        r is Ok <==> transfer_admissible(*old(source), *old(dest), mint, amount, authority),
        r is Ok ==> *final(source) == debited(*old(source), amount) && *final(dest) == credited(
            *old(dest),
            amount,
        ),
        r is Err ==> *final(source) == *old(source) && *final(dest) == *old(dest) && r == Err::<
            (),
            PaymentError,
        >(transfer_rejection(*old(source), *old(dest), mint, amount, authority)),
{
    if dest.mint != mint {
        return Err(PaymentError::InvalidMint);
    }
    if source.mint != mint {
        return Err(PaymentError::InvalidMint);
    }
    if source.owner != authority {
        return Err(PaymentError::InvalidMerchant);
    }
    if source.balance < amount {
        return Err(PaymentError::InsufficientEscrowFunds);
    }
    source.balance = source.balance - amount;
    dest.balance = dest.balance + amount;
    Ok(())
}

/// A transfer whose destination's declared token type differs from the
/// requested one is never admissible and is always rejected as a token-type
/// mismatch, whatever the other accounts and the authority look like.
pub proof fn lemma_mint_mismatch_never_transfers(
    source: TokenAccount,
    dest: TokenAccount,
    mint: u128,
    amount: u64,
    authority: Authority,
)
    requires
        dest.mint != mint,
    ensures
        !transfer_admissible(source, dest, mint, amount, authority),
        transfer_rejection(source, dest, mint, amount, authority) == PaymentError::InvalidMint,
{
}

/// Two sessions that differ in id or in record address derive distinct
/// settlement authorities, whatever salts the two derivations use.
pub proof fn lemma_authority_scoped_to_session(
    a_address: u128,
    a_uuid: u128,
    a_bump: u8,
    b_address: u128,
    b_uuid: u128,
    b_bump: u8,
)
    requires
        a_uuid != b_uuid || a_address != b_address,
    ensures
        derived_authority(a_address, a_uuid, a_bump) != derived_authority(
            b_address,
            b_uuid,
            b_bump,
        ),
{
}

/// A settlement authority derived for one session never authorizes a debit
/// of a custody account owned by a different session's authority, even if
/// both sessions share a payer: the session id is part of the seed material,
/// so the ownership check of the transfer primitive cannot pass.
pub proof fn lemma_foreign_authority_never_debits(
    source: TokenAccount,
    dest: TokenAccount,
    mint: u128,
    amount: u64,
    own: SettlementAuthority,
    foreign: SettlementAuthority,
)
    requires
        source.owner == Authority::Derived(own),
        foreign.uuid != own.uuid || foreign.session_address != own.session_address,
    ensures
        !transfer_admissible(source, dest, mint, amount, Authority::Derived(foreign)),
{
}

} // verus!
