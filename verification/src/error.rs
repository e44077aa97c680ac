//! Error taxonomy of the engine.
//!
//! Every failed precondition surfaces as exactly one stable error value;
//! the host discards all effects of a failed request, so no partial state
//! can persist alongside any of these.

use vstd::prelude::*;

verus! {

/// Business-logic failures of the payment engine.
#[derive(Clone, Copy, Debug, PartialEq, Eq, Structural)]
pub enum PaymentError {
    /// The request payload does not decode to a known command.
    InvalidInstruction,
    /// A record would not be exempt from rent.
    NotRentExempt,
    /// The payer's asset balance is below the requested amount.
    InsufficientFunds,
    /// A supplied asset account is not of the expected mint.
    InvalidMint,
    /// The requested amount is zero or otherwise unusable.
    InvalidAmount,
    /// The payment record was already refunded.
    AlreadyProcessed,
    /// The payment can no longer be acted on.
    PaymentExpired,
    /// The caller is not permitted to perform this operation.
    Unauthorized,
    /// The recipient account is not acceptable.
    InvalidRecipient,
}

/// Everything a request can fail with: host-level precondition failures
/// plus the business-logic errors of [`PaymentError`].
#[derive(Clone, Copy, Debug, PartialEq, Eq, Structural)]
pub enum ProcessError {
    /// A required participant did not present a verified signature.
    MissingRequiredSignature,
    /// A caller-supplied record address differs from the deterministic
    /// derivation.
    InvalidSeeds,
    /// The request payload is malformed.
    InvalidInstructionData,
    /// A supplied account's data does not decode to the expected layout.
    InvalidAccountData,
    /// An asset account's data decodes but the account was never
    /// initialized by the asset ledger.
    UninitializedAccount,
    /// Fewer accounts were supplied than the command requires.
    NotEnoughAccountKeys,
    /// A business-logic failure.
    Payment(PaymentError),
}

impl PaymentError {
    /// Stable integer code of this error, in declaration order.
    pub fn code(&self) -> (c: u32)
        ensures
            c == match *self {
                PaymentError::InvalidInstruction => 0u32,
                PaymentError::NotRentExempt => 1u32,
                PaymentError::InsufficientFunds => 2u32,
                PaymentError::InvalidMint => 3u32,
                PaymentError::InvalidAmount => 4u32,
                PaymentError::AlreadyProcessed => 5u32,
                PaymentError::PaymentExpired => 6u32,
                PaymentError::Unauthorized => 7u32,
                PaymentError::InvalidRecipient => 8u32,
            },
    {
        match *self {
            PaymentError::InvalidInstruction => 0,
            PaymentError::NotRentExempt => 1,
            PaymentError::InsufficientFunds => 2,
            PaymentError::InvalidMint => 3,
            PaymentError::InvalidAmount => 4,
            PaymentError::AlreadyProcessed => 5,
            PaymentError::PaymentExpired => 6,
            PaymentError::Unauthorized => 7,
            PaymentError::InvalidRecipient => 8,
        }
    }
}

} // verus!
