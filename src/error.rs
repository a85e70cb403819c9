use vstd::prelude::*;

verus! {

/// Every way an operation can fail.
#[derive(Debug, Clone, Copy, PartialEq, Eq, Structural)]
pub enum AppError {
    /// Malformed request payload or unknown tag.
    InvalidInstruction,
    /// A record is not owned by this program.
    IncorrectProgramId,
    /// Re-initialization of a record.
    ConstructorOnce,
    /// A signer, ownership or derived-authority check failed.
    InvalidOwner,
    /// Cross-referenced records disagree.
    UnmatchedPool,
    /// A record or a dependency is not in the required state.
    NotInitialized,
    /// Pools of one swap belong to different networks.
    IncorrectNetworkId,
    /// A quantity required to be positive is zero, or a close finds a balance.
    ZeroValue,
    /// A withdrawal or transfer exceeds the available balance.
    InsufficientFunds,
    /// Overflow, underflow or division by zero.
    Overflow,
}

impl AppError {
    /// Numeric code of each error: its position in the list above.
    pub open spec fn spec_code(self) -> u32 {
        match self {
            AppError::InvalidInstruction => 0,
            AppError::IncorrectProgramId => 1,
            AppError::ConstructorOnce => 2,
            AppError::InvalidOwner => 3,
            AppError::UnmatchedPool => 4,
            AppError::NotInitialized => 5,
            AppError::IncorrectNetworkId => 6,
            AppError::ZeroValue => 7,
            AppError::InsufficientFunds => 8,
            AppError::Overflow => 9,
        }
    }

    /// Numeric code of the error, as reported to the host.
    pub fn code(&self) -> (r: u32)
        ensures
            r == self.spec_code(),
    {
        match self {
            AppError::InvalidInstruction => 0,
            AppError::IncorrectProgramId => 1,
            AppError::ConstructorOnce => 2,
            AppError::InvalidOwner => 3,
            AppError::UnmatchedPool => 4,
            AppError::NotInitialized => 5,
            AppError::IncorrectNetworkId => 6,
            AppError::ZeroValue => 7,
            AppError::InsufficientFunds => 8,
            AppError::Overflow => 9,
        }
    }
}

} // verus!
