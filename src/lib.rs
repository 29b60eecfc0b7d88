//! A staking-pool program core: instruction decoding, account checks and the
//! one-shot initialization of the pool record, with every step verified.
use vstd::prelude::*;

pub mod codec;
pub mod error;
pub mod instruction;
pub mod processor;
pub mod pubkey;
pub mod state;

pub use error::{ProgramError, StakingError};
pub use instruction::Instruction;
pub use processor::{AccountInfo, process};
pub use pubkey::Pubkey;
pub use state::PoolStorageAccount;

verus! {

} // verus!
