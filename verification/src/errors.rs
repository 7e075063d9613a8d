use vstd::prelude::*;

verus! {

/// Failures of the fee ledger.
#[derive(Clone, Copy, Debug, PartialEq, Eq, Structural)]
pub enum SolEarnaError {
    /// The holding account holds less than the ledger would count as collected.
    BalanceMismatch,
    /// The amount cannot be applied: a counter would leave the 64-bit range, or
    /// there is no fee rate to apportion it by.
    NotAllowed,
    /// The ledger record exists already.
    DuplicateInitialization,
}

/// Failures of the wrapper vault.
#[derive(Clone, Copy, Debug, PartialEq, Eq, Structural)]
pub enum XError {
    /// A token account is not the one the treasury record asks for.
    InvalidAddress,
    /// The amount is zero, or more than the accounts involved can give or take.
    NotAllowed,
    /// The underlying or the derivative asset is not the one bound to the
    /// treasury record.
    InvalidAssetBinding,
    /// The treasury record exists already.
    DuplicateInitialization,
}

impl SolEarnaError {
    /// What the failure says of itself.
    pub fn message(&self) -> (text: &'static str)
        ensures
            text@ == match *self {
                SolEarnaError::BalanceMismatch => "Collect fee amount mismatch with balance"@,
                SolEarnaError::NotAllowed => "Not allowed"@,
                SolEarnaError::DuplicateInitialization => "Already initialized"@,
            },
    {
        match self {
            SolEarnaError::BalanceMismatch => "Collect fee amount mismatch with balance",
            SolEarnaError::NotAllowed => "Not allowed",
            SolEarnaError::DuplicateInitialization => "Already initialized",
        }
    }
}

impl XError {
    /// What the failure says of itself.
    pub fn message(&self) -> (text: &'static str)
        ensures
            text@ == match *self {
                XError::InvalidAddress => "Invalid address"@,
                XError::NotAllowed => "Not allowed"@,
                XError::InvalidAssetBinding => "Invalid Treasury Mint"@,
                XError::DuplicateInitialization => "Already initialized"@,
            },
    {
        match self {
            XError::InvalidAddress => "Invalid address",
            XError::NotAllowed => "Not allowed",
            XError::InvalidAssetBinding => "Invalid Treasury Mint",
            XError::DuplicateInitialization => "Already initialized",
        }
    }
}

} // verus!
