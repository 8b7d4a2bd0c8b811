//! The reasons for which an operation is refused.

use vstd::prelude::*;

verus! {

/// Why an operation was refused. Every failure is final for the operation
/// that met it: nothing is retried and nothing is partly applied.
#[derive(Clone, Copy, Debug, PartialEq, Eq, Structural)]
pub enum NineLivesError {
    /// A caller or an account owner is not the principal that is required.
    Unauthorized,
    /// The amount is zero.
    InvalidAmount,
    /// An account holds another asset than the mint that was named.
    InvalidMint,
    /// The two fee shares do not add up to the total tax.
    TaxSplitMismatch,
    /// The tax leaves nothing for the net leg.
    InsufficientNetAmount,
    /// The fee arithmetic does not fit the integer width.
    MathOverflow,
    /// An account record is shorter than the token account layout.
    InvalidAccount,
    /// The configuration record exists already.
    AlreadyInitialized,
    /// A registry is full.
    CapacityExceeded,
}

impl NineLivesError {
    /// The text shown to a user for each error.
    pub open spec fn spec_message(self) -> Seq<char> {
        match self {
            NineLivesError::Unauthorized => "Unauthorized"@,
            NineLivesError::InvalidAmount => "Invalid amount"@,
            NineLivesError::InvalidMint => "Invalid mint for token account"@,
            NineLivesError::TaxSplitMismatch => "Tax split mismatch"@,
            NineLivesError::InsufficientNetAmount => "Insufficient amount after tax"@,
            NineLivesError::MathOverflow => "Math overflow"@,
            NineLivesError::InvalidAccount => "Invalid token account data"@,
            NineLivesError::AlreadyInitialized => "Already initialized"@,
            NineLivesError::CapacityExceeded => "Capacity exceeded"@,
        }
    }

    /// The text shown to a user for this error.
    pub fn message(&self) -> (text: &'static str)
        ensures
            text@ == self.spec_message(),
    {
        match self {
            NineLivesError::Unauthorized => "Unauthorized",
            NineLivesError::InvalidAmount => "Invalid amount",
            NineLivesError::InvalidMint => "Invalid mint for token account",
            NineLivesError::TaxSplitMismatch => "Tax split mismatch",
            NineLivesError::InsufficientNetAmount => "Insufficient amount after tax",
            NineLivesError::MathOverflow => "Math overflow",
            NineLivesError::InvalidAccount => "Invalid token account data",
            NineLivesError::AlreadyInitialized => "Already initialized",
            NineLivesError::CapacityExceeded => "Capacity exceeded",
        }
    }
}

} // verus!
