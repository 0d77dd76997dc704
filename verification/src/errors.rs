//! The error taxonomy of the settlement engine.

use vstd::prelude::*;

verus! {

/// Why an instruction was rejected. Every rejection leaves the session
/// record, the event log and all balances unchanged.
#[derive(Clone, Copy, Debug, PartialEq, Eq, Structural)]
pub enum PaymentError {
    /// The destination or authority identity does not match the expected
    /// party.
    InvalidMerchant,
    /// The token type of an account involved in a transfer does not match the
    /// session's token type.
    InvalidMint,
    /// The instruction was invoked while the session is not in the state it
    /// requires.
    InvalidPaymentSessionState,
    /// The source account does not hold enough of the token to move the
    /// session's amount.
    InsufficientEscrowFunds,
}

impl PaymentError {
    /// The human-readable description of this error.
    pub open spec fn message_spec(self) -> Seq<char> {
        match self {
            PaymentError::InvalidMerchant => "The merchant account provided does not match the payment session's merchant ID."@,
            PaymentError::InvalidMint => "The token mint provided does not match the payment session's token mint."@,
            PaymentError::InvalidPaymentSessionState => "The payment session is not in a state that allows this operation."@,
            PaymentError::InsufficientEscrowFunds => "Insufficient funds in the escrow account to complete the settlement."@,
        }
    }

    /// Describe this error for a caller that reports it.
    pub fn message(&self) -> (r: &'static str)
        ensures
            r@ == self.message_spec(),
    {
        match self {
            PaymentError::InvalidMerchant => "The merchant account provided does not match the payment session's merchant ID.",
            PaymentError::InvalidMint => "The token mint provided does not match the payment session's token mint.",
            PaymentError::InvalidPaymentSessionState => "The payment session is not in a state that allows this operation.",
            PaymentError::InsufficientEscrowFunds => "Insufficient funds in the escrow account to complete the settlement.",
        }
    }
}

} // verus!
