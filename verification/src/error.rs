use vstd::prelude::*;

verus! {

/// Why an operation was refused. A refused operation has changed nothing.
#[derive(Clone, Copy, Debug, PartialEq, Eq, Hash, Structural)]
pub enum ErrorCode {
    /// The caller is not the identity that the record names: the mint's
    /// authority when issuing, the source account's owner when transferring.
    Unauthorized,
    /// The source account holds less than the amount to transfer.
    InsufficientFunds,
    /// The credited balance would exceed `u64::MAX`.
    ArithmeticOverflow,
}

} // verus!
