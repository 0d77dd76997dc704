//! The instruction handlers: one per lifecycle transition. Each validates
//! its preconditions, performs at most one custody transfer, mutates the
//! session, and emits an event — or fails and changes nothing at all.

pub mod deposit_stablecoin;
pub mod init_payment_session;
pub mod mark_payment_settled;
pub mod refund_payment;
