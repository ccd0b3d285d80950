use vstd::prelude::*;

verus! {

/// Why an escrow operation was rejected.
#[derive(Clone, Copy, Debug, PartialEq, Eq, Structural)]
pub enum EscrowError {
    /// The caller is not the owner of the contract.
    Unauthorized,
    /// No order is stored under the given identifier.
    OrderNotFound,
    /// The signer of a payment is not the payer the order names.
    WrongPayer,
    /// The value attached to a payment is below the order's amount.
    InsufficientDeposit,
    /// The order has been paid before.
    AlreadyPaid,
    /// The order was never paid, or has been refunded before.
    RefundNotAllowed,
}

impl EscrowError {
    /// The text that a rejected call reports for this error.
    pub open spec fn text(self) -> Seq<char> {
        match self {
            EscrowError::Unauthorized => "ERROR_NOT_OWNER"@,
            EscrowError::OrderNotFound => "NOT_FOUND_ORDER_ID"@,
            EscrowError::WrongPayer => "ERROR_DIFFERENT_PAYER"@,
            EscrowError::InsufficientDeposit => "ERROR_DEPOSIT_NOT_ENOUGH"@,
            EscrowError::AlreadyPaid => "ERROR_ORDER_ALREADY_PAID"@,
            EscrowError::RefundNotAllowed => "ERROR_REFUND_NOT_ALLOWED"@,
        }
    }

    /// Returns the text that a rejected call reports for this error.
    pub fn message(&self) -> (text: &'static str)
        ensures
            text@ == self.text(),
    {
        match self {
            EscrowError::Unauthorized => "ERROR_NOT_OWNER",
            EscrowError::OrderNotFound => "NOT_FOUND_ORDER_ID",
            EscrowError::WrongPayer => "ERROR_DIFFERENT_PAYER",
            EscrowError::InsufficientDeposit => "ERROR_DEPOSIT_NOT_ENOUGH",
            EscrowError::AlreadyPaid => "ERROR_ORDER_ALREADY_PAID",
            EscrowError::RefundNotAllowed => "ERROR_REFUND_NOT_ALLOWED",
        }
    }
}

} // verus!
