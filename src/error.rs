//! Failures of the staking-pool program.
use vstd::prelude::*;

verus! {

/// The program's own failures, each reported to the host as a custom code.
#[derive(Debug, Clone, Copy, PartialEq, Eq, Structural)]
pub enum StakingError {
    /// The instruction bytes are not a known instruction, or the instruction
    /// has no handler.
    InvalidInstruction,
    /// The account that must sign the transaction did not.
    InvalidSigner,
    /// The storage account is not owned by the executing program.
    InvalidOwner,
    /// The pool record was already initialized.
    AccountInitialized,
}

impl StakingError {
    /// The custom error code of this failure: its position in the declaration.
    pub open spec fn spec_code(self) -> u32 {
        match self {
            StakingError::InvalidInstruction => 0,
            StakingError::InvalidSigner => 1,
            StakingError::InvalidOwner => 2,
            StakingError::AccountInitialized => 3,
        }
    }

    /// The custom error code reported to the host for this failure.
    pub fn code(&self) -> (r: u32)
        ensures
            r == self.spec_code(),
    {
        match self {
            StakingError::InvalidInstruction => 0,
            StakingError::InvalidSigner => 1,
            StakingError::InvalidOwner => 2,
            StakingError::AccountInitialized => 3,
        }
    }
}

/// What an invocation of the program can fail with, as reported to the host.
#[derive(Debug, Clone, Copy, PartialEq, Eq, Structural)]
pub enum ProgramError {
    /// A failure of the program's own, carried as a custom code.
    Custom(StakingError),
    /// Fewer accounts were passed than the instruction needs.
    NotEnoughAccountKeys,
    /// The storage account's bytes do not hold a pool record.
    InvalidAccountData,
}

impl From<StakingError> for ProgramError {
    fn from(e: StakingError) -> (r: ProgramError)
        ensures
            r == ProgramError::Custom(e),
    {
        ProgramError::Custom(e)
    }
}

impl vstd::std_specs::convert::FromSpecImpl<StakingError> for ProgramError {
    open spec fn obeys_from_spec() -> bool {
        true
    }

    open spec fn from_spec(e: StakingError) -> ProgramError {
        ProgramError::Custom(e)
    }
}

} // verus!
