use vstd::prelude::*;

verus! {

/// Why an operation was refused. Every failure is terminal for the attempted
/// operation and leaves the record exactly as it was.
#[derive(Clone, Copy, Debug, PartialEq, Eq, Structural)]
pub enum ErrorCode {
    /// `increment` would take the count past `u64::MAX`.
    Overflow,
    /// `decrement` was asked for while the count is zero.
    Underflow,
    /// The caller is not the authority bound to the record.
    AuthorityMismatch,
    /// `initialize` found a record already allocated in the slot.
    AlreadyInitialized,
    /// The payer's balance cannot cover the allocation cost of a new record.
    AllocationFailed,
    /// The slot holds no record: it was never initialized, or already closed.
    AccountNotInitialized,
}

} // verus!
