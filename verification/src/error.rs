//! The ways in which a call can be rejected.

use vstd::prelude::*;

verus! {

/// Why a call was rejected. A rejected call produces no transfers and leaves
/// the admin record as it was.
#[derive(Debug, Clone, PartialEq, Eq)]
pub enum ContractError {
    /// The request is malformed; `reason` says how.
    InvalidInput { reason: String },
    /// The attached funds do not cover the requested amounts.
    InsufficientFunds {},
    /// The requested amounts add up to more than 128 bits can hold.
    ArithmeticOverflow {},
    /// The caller is not the current admin.
    Unauthorized {},
}

/// The mathematical model of a [`ContractError`].
pub enum ErrorView {
    InvalidInput { reason: Seq<char> },
    InsufficientFunds,
    ArithmeticOverflow,
    Unauthorized,
}

impl View for ContractError {
    type V = ErrorView;

    open spec fn view(&self) -> ErrorView {
        match *self {
            ContractError::InvalidInput { reason } => ErrorView::InvalidInput { reason: reason@ },
            ContractError::InsufficientFunds {  } => ErrorView::InsufficientFunds,
            ContractError::ArithmeticOverflow {  } => ErrorView::ArithmeticOverflow,
            ContractError::Unauthorized {  } => ErrorView::Unauthorized,
        }
    }
}

impl ContractError {
    /// A human-readable description of the error.
    pub fn message(&self) -> (r: String)
        ensures
            r@ == (match self@ {
                ErrorView::InvalidInput { reason } => reason,
                ErrorView::InsufficientFunds => "Insufficient funds"@,
                ErrorView::ArithmeticOverflow => "Arithmetic overflow"@,
                ErrorView::Unauthorized => "Unauthorized"@,
            }),
    {
        match self {
            ContractError::InvalidInput { reason } => reason.clone(),
            ContractError::InsufficientFunds {  } => "Insufficient funds".to_string(),
            ContractError::ArithmeticOverflow {  } => "Arithmetic overflow".to_string(),
            ContractError::Unauthorized {  } => "Unauthorized".to_string(),
        }
    }
}

} // verus!
