use vstd::prelude::*;

verus! {

/// Precondition violations detected by parameter validation before any state
/// is touched. Each variant names the input it rejects.
#[derive(Clone, Copy, PartialEq, Eq, Structural, Debug)]
pub enum ParameterError {
    /// The buy-side quantity is not strictly positive.
    InvalidContractPrice,
    /// The expiration timestamp is zero.
    InvalidExpirationDate,
    /// The underlying asset identifier is empty.
    InvalidAssetName,
}

/// Every failure a workflow can surface: a validation error, passed through
/// verbatim, or a rejected collateral transfer.
#[derive(Clone, Copy, PartialEq, Eq, Structural, Debug)]
pub enum ContractError {
    /// Parameter validation failed; the inner value says which check.
    Parameter(ParameterError),
    /// The asset backend could not move the requested amount out of the
    /// source's balance.
    TransferFailed,
}

} // verus!
