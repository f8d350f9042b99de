use vstd::prelude::*;

verus! {

/// Why the ledger rejected an operation.
#[derive(Clone, Copy, PartialEq, Eq, Debug, Structural)]
pub enum Error {
    /// A token name or ticker is longer than the ledger accepts.
    InvalidInput,
    /// The token counter, a balance or an allowance would leave its range.
    Overflow,
    /// The operation names a balance or allowance entry that was never created.
    NoSuchAccount,
    /// The source account holds less than the amount to move.
    InsufficientBalance,
    /// The approved amount is smaller than the amount to move.
    InsufficientAllowance,
}

} // verus!
