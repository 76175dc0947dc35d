use vstd::prelude::*;
use vstd::string::StringExecFns;

verus! {

/// Why an operation of the ledger was refused.
///
/// Every refusal aborts the whole operation: the records it was given are left
/// as they were.
#[derive(Clone, Copy, Debug, PartialEq, Eq, Structural)]
pub enum CertificateError {
    /// The college's subscription has run out, or was never switched on.
    CollegeNotActive,
    /// The caller is not the identity that the operation asks for.
    NotAuthorized,
    /// The college does not own the collection that was named.
    CollectionNotFound,
    /// The college already owns as many collections as it may.
    CollectionLimitReached,
    /// The payment service reported that the paying account is short.
    InsufficientFunds,
    /// The identifier of the record to create is already taken.
    DuplicateIdentifier,
    /// The college counter has reached the end of its range.
    CounterOverflow,
    /// The payment service refused the transfer for another reason.
    PaymentFailed,
    /// The issuance service refused to create the asset.
    IssuanceFailed,
}

/// What the payment service answers when a transfer does not go through.
#[derive(Clone, Copy, Debug, PartialEq, Eq, Structural)]
pub enum PaymentError {
    /// The source account holds less than the amount.
    InsufficientFunds,
    /// Any other refusal.
    Rejected,
}

/// What the issuance service answers when an asset is not created.
#[derive(Clone, Copy, Debug, PartialEq, Eq, Structural)]
pub enum IssuanceError {
    /// The asset's identifier is already in use.
    DuplicateIdentifier,
    /// Any other refusal.
    Rejected,
}

/// The error that an operation reports when the payment service fails with `e`.
pub open spec fn payment_failure(e: PaymentError) -> CertificateError {
    match e {
        PaymentError::InsufficientFunds => CertificateError::InsufficientFunds,
        PaymentError::Rejected => CertificateError::PaymentFailed,
    }
}

/// The error that an operation reports when the issuance service fails with `e`.
pub open spec fn issuance_failure(e: IssuanceError) -> CertificateError {
    match e {
        IssuanceError::DuplicateIdentifier => CertificateError::DuplicateIdentifier,
        IssuanceError::Rejected => CertificateError::IssuanceFailed,
    }
}

/// The text that goes with each error.
pub open spec fn message_text(e: CertificateError) -> Seq<char> {
    match e {
        CertificateError::CollegeNotActive => "College is not active"@,
        CertificateError::NotAuthorized => "Not authorized"@,
        CertificateError::CollectionNotFound => "Collection not found"@,
        CertificateError::CollectionLimitReached => "Collection limit reached"@,
        CertificateError::InsufficientFunds => "Insufficient funds"@,
        CertificateError::DuplicateIdentifier => "Identifier already in use"@,
        CertificateError::CounterOverflow => "College counter overflow"@,
        CertificateError::PaymentFailed => "Payment failed"@,
        CertificateError::IssuanceFailed => "Issuance failed"@,
    }
}

impl CertificateError {
    /// The error for a failed payment.
    pub fn from_payment(e: PaymentError) -> (r: CertificateError)
        ensures
            r == payment_failure(e),
    {
        match e {
            PaymentError::InsufficientFunds => CertificateError::InsufficientFunds,
            PaymentError::Rejected => CertificateError::PaymentFailed,
        }
    }

    /// The error for a failed issuance.
    pub fn from_issuance(e: IssuanceError) -> (r: CertificateError)
        ensures
            r == issuance_failure(e),
    {
        match e {
            IssuanceError::DuplicateIdentifier => CertificateError::DuplicateIdentifier,
            IssuanceError::Rejected => CertificateError::IssuanceFailed,
        }
    }

    /// The error's text, for display.
    pub fn message(&self) -> (s: String)
        ensures
            s@ == message_text(*self),
    {
        match self {
            CertificateError::CollegeNotActive => String::from_str("College is not active"),
            CertificateError::NotAuthorized => String::from_str("Not authorized"),
            CertificateError::CollectionNotFound => String::from_str("Collection not found"),
            CertificateError::CollectionLimitReached => String::from_str(
                "Collection limit reached",
            ),
            CertificateError::InsufficientFunds => String::from_str("Insufficient funds"),
            CertificateError::DuplicateIdentifier => String::from_str(
                "Identifier already in use",
            ),
            CertificateError::CounterOverflow => String::from_str("College counter overflow"),
            CertificateError::PaymentFailed => String::from_str("Payment failed"),
            CertificateError::IssuanceFailed => String::from_str("Issuance failed"),
        }
    }
}

} // verus!
