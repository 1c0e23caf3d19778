use vstd::prelude::*;

verus! {

/// Why an operation on a vault was refused. A refused operation changes nothing.
#[derive(Clone, Copy, Debug, PartialEq, Eq, Structural)]
pub enum TipJarError {
    /// A deposit or a withdrawal of zero.
    InvalidAmount,
    /// A withdrawal by someone other than the vault's owner.
    Unauthorized,
    /// A withdrawal of more than the vault holds.
    InsufficientFunds,
    /// A deposit that would carry the lifetime counter past `u64::MAX`.
    MathOverflow,
}

/// The text that goes with each error.
pub open spec fn error_message(e: TipJarError) -> Seq<char> {
    match e {
        TipJarError::InvalidAmount => "Amount must be greater than zero"@,
        TipJarError::Unauthorized => "You are not authorized to perform this action"@,
        TipJarError::InsufficientFunds => "Insufficient funds in the vault"@,
        TipJarError::MathOverflow => "Math overflow"@,
    }
}

impl TipJarError {
    /// A sentence that describes the error to a user.
    pub fn message(&self) -> (r: &'static str)
        ensures
            r@ == error_message(*self),
    {
        match self {
            TipJarError::InvalidAmount => "Amount must be greater than zero",
            TipJarError::Unauthorized => "You are not authorized to perform this action",
            TipJarError::InsufficientFunds => "Insufficient funds in the vault",
            TipJarError::MathOverflow => "Math overflow",
        }
    }
}

} // verus!
