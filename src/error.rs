use vstd::prelude::*;

verus! {

/// Every way an operation on the ledger can be refused. A refused operation
/// leaves the ledger as it was.
#[derive(Clone, Copy, Debug, PartialEq, Eq, Structural)]
pub enum ErrorCode {
    /// A pool already exists at the address derived from the company name.
    DuplicatePool,
    /// A grant already exists for this beneficiary in this pool.
    DuplicateGrant,
    /// The caller is not the owner of the pool.
    NotPoolOwner,
    /// A supplied address is not the one derived from its seeds.
    AddressMismatch,
    /// The claiming identity is not the grant's beneficiary.
    NotBeneficiary,
    /// The grant belongs to another pool.
    WrongPool,
    /// The pool's treasury or asset differs from the supplied ones.
    PoolMismatch,
    /// The cliff has not been reached yet.
    BeforeCliff,
    /// The grant's vesting window is empty or negative.
    InvalidSchedule,
    /// An intermediate amount does not fit in 64 bits.
    ArithmeticOverflow,
    /// Nothing is left to claim at this time.
    NothingToClaim,
    /// The token transfer was not confirmed.
    TransferFailed,
    /// The company name is longer than allowed.
    NameTooLong,
    /// No program address can be derived from the seeds.
    InvalidSeeds,
}

} // verus!
