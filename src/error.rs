use vstd::prelude::*;

verus! {

/// Every way an escrow invocation can fail. None of them is retried: a
/// failed invocation leaves no trace.
#[derive(Debug, Clone, Copy, PartialEq, Eq, Structural)]
pub enum EscrowError {
    /// The instruction buffer is empty, too short or carries an unknown tag.
    InvalidInstructionData,
    /// Fewer accounts were supplied than the instruction uses.
    NotEnoughAccounts,
    /// The storage region is shorter than a record.
    BufferTooSmall,
    /// The account that must authorise the step did not sign.
    MissingSignature,
    /// The escrow account is not owned by this program.
    WrongOwner,
    /// The supplied initializer is not the one the record names.
    AccountMismatch,
    /// Initialize on a record that is already active.
    AlreadyInitialized,
    /// Exchange or Cancel on a record that is not active.
    NotInitialized,
    /// Initialize with a zero amount.
    InvalidArgument,
    /// Exchange when the escrow holds no more than its reserve.
    InsufficientFunds,
    /// Cancel when the escrow holds no more than its reserve.
    NoRefundAvailable,
    /// A system transfer cannot be carried out.
    TransferFailed,
    /// A balance would leave the range of a `u64`.
    ArithmeticOverflow,
}

} // verus!
