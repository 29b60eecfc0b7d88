//! Instruction dispatch and the pool's initialization.
use crate::error::{ProgramError, StakingError};
use crate::instruction::{Instruction, instruction_bytes, instruction_from_bytes, lemma_instruction_round_trip};
use crate::pubkey::Pubkey;
use crate::state::{PoolState, PoolStorageAccount, record_bytes, record_from_bytes, lemma_record_round_trip_state};
use vstd::prelude::*;

verus! {

/// An account handed to the program by the host for one invocation.
#[derive(Debug, Clone)]
pub struct AccountInfo {
    /// The account's identity.
    pub key: Pubkey,
    /// Whether the account signed the transaction.
    pub is_signer: bool,
    /// The identity of the program that owns the account.
    pub owner: Pubkey,
    /// The account's stored bytes.
    pub data: Vec<u8>,
}

/// What initializing the pool with reward rate `rewards_per_token` yields on
/// `accounts` (the future authority first, the storage account second): the
/// new record, or the first failed check, in this order.
pub open spec fn initialize_outcome(
    program_id: Seq<u8>,
    accounts: Seq<AccountInfo>,
    rewards_per_token: u64,
) -> Result<PoolState, ProgramError> {
    if accounts.len() == 0 {
        Err(ProgramError::NotEnoughAccountKeys)
    } else if !accounts[0].is_signer {
        Err(ProgramError::Custom(StakingError::InvalidSigner))
    } else if accounts.len() == 1 {
        Err(ProgramError::NotEnoughAccountKeys)
    } else if accounts[1].owner@ != program_id {
        Err(ProgramError::Custom(StakingError::InvalidOwner))
    } else {
        match record_from_bytes(accounts[1].data@) {
            None => Err(ProgramError::InvalidAccountData),
            Some(current) => if current.is_initialized {
                Err(ProgramError::Custom(StakingError::AccountInitialized))
            } else {
                Ok(
                    PoolState {
                        pool_authority: accounts[0].key@,
                        total_staked: 0,
                        user_count: 0,
                        rewards_per_token,
                        is_initialized: true,
                    },
                )
            },
        }
    }
}

/// What the instruction bytes `data` yield on `accounts`: only `Initialize`
/// has a handler; every other instruction, and bytes that are none, fail
/// with `InvalidInstruction`.
pub open spec fn process_outcome(
    program_id: Seq<u8>,
    accounts: Seq<AccountInfo>,
    data: Seq<u8>,
) -> Result<PoolState, ProgramError> {
    match instruction_from_bytes(data) {
        Some(Instruction::Initialize { rewards_per_token }) => initialize_outcome(
            program_id,
            accounts,
            rewards_per_token,
        ),
        _ => Err(ProgramError::Custom(StakingError::InvalidInstruction)),
    }
}

/// What the host is told of an outcome.
pub open spec fn reported(outcome: Result<PoolState, ProgramError>) -> Result<(), ProgramError> {
    match outcome {
        Ok(_) => Ok(()),
        Err(e) => Err(e),
    }
}

/// `after` is `before` with the outcome applied: on success the storage
/// account (the second) holds the bytes of the new record and nothing else
/// changed; on failure nothing changed at all.
pub open spec fn applied(
    before: Seq<AccountInfo>,
    after: Seq<AccountInfo>,
    outcome: Result<PoolState, ProgramError>,
) -> bool {
    match outcome {
        Ok(state) => {
            &&& before.len() >= 2
            &&& after.len() == before.len()
            &&& forall|i: int| 0 <= i < before.len() && i != 1 ==> after[i] == before[i]
            &&& after[1].key == before[1].key
            &&& after[1].is_signer == before[1].is_signer
            &&& after[1].owner == before[1].owner
            &&& after[1].data@ == record_bytes(state)
        },
        Err(_) => after == before,
    }
}

/// Runs the instruction held by `instruction_data` against `accounts`, on
/// behalf of the program `program_id`.
pub fn process(
    program_id: &Pubkey,
    accounts: &mut Vec<AccountInfo>,
    instruction_data: &[u8],
) -> (r: Result<(), ProgramError>)
    ensures
        r == reported(process_outcome(program_id@, old(accounts)@, instruction_data@)),
        applied(
            old(accounts)@,
            final(accounts)@,
            process_outcome(program_id@, old(accounts)@, instruction_data@),
        ),
{
    let instruction = match Instruction::unpack(instruction_data) {
        Ok(i) => i,
        Err(e) => {
            return Err(ProgramError::from(e));
        },
    };
    match instruction {
        Instruction::Initialize { rewards_per_token } => {
            process_initialize_pool(program_id, accounts, rewards_per_token)
        },
        _ => Err(ProgramError::from(StakingError::InvalidInstruction)),
    }
}

/// Initializes the pool: checks that the first account signed and that the
/// second is owned by the program and holds an uninitialized record, then
/// stores the new record there.
fn process_initialize_pool(
    program_id: &Pubkey,
    accounts: &mut Vec<AccountInfo>,
    rewards_per_token: u64,
) -> (r: Result<(), ProgramError>)
    ensures
        r == reported(initialize_outcome(program_id@, old(accounts)@, rewards_per_token)),
        applied(
            old(accounts)@,
            final(accounts)@,
            initialize_outcome(program_id@, old(accounts)@, rewards_per_token),
        ),
{
    if accounts.len() == 0 {
        return Err(ProgramError::NotEnoughAccountKeys);
    }
    let authority = accounts[0].key;
    if !accounts[0].is_signer {
        return Err(ProgramError::from(StakingError::InvalidSigner));
    }
    if accounts.len() == 1 {
        return Err(ProgramError::NotEnoughAccountKeys);
    }
    if !accounts[1].owner.same_as(program_id) {
        return Err(ProgramError::from(StakingError::InvalidOwner));
    }
    let current = match PoolStorageAccount::unpack(accounts[1].data.as_slice()) {
        Some(c) => c,
        None => {
            return Err(ProgramError::InvalidAccountData);
        },
    };
    if current.is_initialized() {
        return Err(ProgramError::from(StakingError::AccountInitialized));
    }
    let pool = PoolStorageAccount {
        pool_authority: authority,
        total_staked: 0,
        user_count: 0,
        rewards_per_token,
        is_initialized: true,
    };
    let bytes = pool.pack();
    accounts[1].data = bytes;
    Ok(())
}

/// Initializing twice against the same storage account, with any signers and
/// reward rates: the first call succeeds, the second fails with
/// `AccountInitialized`, and the record after the second call is the one the
/// first call stored.
pub proof fn lemma_initialize_twice(
    program_id: Seq<u8>,
    first: Seq<AccountInfo>,
    after_first: Seq<AccountInfo>,
    first_rate: u64,
    second: Seq<AccountInfo>,
    after_second: Seq<AccountInfo>,
    second_rate: u64,
)
    requires
        first.len() >= 2,
        first[0].is_signer,
        first[1].owner@ == program_id,
        record_from_bytes(first[1].data@) matches Some(s) && !s.is_initialized,
        applied(
            first,
            after_first,
            process_outcome(
                program_id,
                first,
                instruction_bytes(Instruction::Initialize { rewards_per_token: first_rate }),
            ),
        ),
        second.len() >= 2,
        second[0].is_signer,
        second[1] == after_first[1],
        applied(
            second,
            after_second,
            process_outcome(
                program_id,
                second,
                instruction_bytes(Instruction::Initialize { rewards_per_token: second_rate }),
            ),
        ),
    ensures
        process_outcome(
            program_id,
            first,
            instruction_bytes(Instruction::Initialize { rewards_per_token: first_rate }),
        ) == Ok::<PoolState, ProgramError>(
            PoolState {
                pool_authority: first[0].key@,
                total_staked: 0,
                user_count: 0,
                rewards_per_token: first_rate,
                is_initialized: true,
            },
        ),
        process_outcome(
            program_id,
            second,
            instruction_bytes(Instruction::Initialize { rewards_per_token: second_rate }),
        ) == Err::<PoolState, ProgramError>(
            ProgramError::Custom(StakingError::AccountInitialized),
        ),
        after_second[1] == after_first[1],
        record_from_bytes(after_second[1].data@) == record_from_bytes(after_first[1].data@),
{
    lemma_instruction_round_trip(Instruction::Initialize { rewards_per_token: first_rate });
    lemma_instruction_round_trip(Instruction::Initialize { rewards_per_token: second_rate });
    let stored = PoolState {
        pool_authority: first[0].key@,
        total_staked: 0,
        user_count: 0,
        rewards_per_token: first_rate,
        is_initialized: true,
    };
    lemma_record_round_trip_state(stored);
}

/// Initialization fails with `InvalidSigner` whenever the first account did
/// not sign, whatever the other accounts hold.
pub proof fn lemma_unsigned_authority_rejected(
    program_id: Seq<u8>,
    accounts: Seq<AccountInfo>,
    rewards_per_token: u64,
)
    requires
        accounts.len() >= 1,
        !accounts[0].is_signer,
    ensures
        process_outcome(
            program_id,
            accounts,
            instruction_bytes(Instruction::Initialize { rewards_per_token }),
        ) == Err::<PoolState, ProgramError>(ProgramError::Custom(StakingError::InvalidSigner)),
{
    lemma_instruction_round_trip(Instruction::Initialize { rewards_per_token });
}

/// Initialization fails with `InvalidOwner` whenever the storage account is
/// owned by another program, even when the first account signed.
pub proof fn lemma_foreign_storage_rejected(
    program_id: Seq<u8>,
    accounts: Seq<AccountInfo>,
    rewards_per_token: u64,
)
    requires
        accounts.len() >= 2,
        accounts[0].is_signer,
        accounts[1].owner@ != program_id,
    ensures
        process_outcome(
            program_id,
            accounts,
            instruction_bytes(Instruction::Initialize { rewards_per_token }),
        ) == Err::<PoolState, ProgramError>(ProgramError::Custom(StakingError::InvalidOwner)),
{
    lemma_instruction_round_trip(Instruction::Initialize { rewards_per_token });
}

/// Every instruction but `Initialize` decodes but has no handler: it fails
/// with `InvalidInstruction` and leaves every account as it was.
pub proof fn lemma_unhandled_instruction_rejected(
    program_id: Seq<u8>,
    accounts: Seq<AccountInfo>,
    after: Seq<AccountInfo>,
    instruction: Instruction,
)
    requires
        !(instruction is Initialize),
        applied(accounts, after, process_outcome(program_id, accounts, instruction_bytes(instruction))),
    ensures
        process_outcome(program_id, accounts, instruction_bytes(instruction))
            == Err::<PoolState, ProgramError>(
            ProgramError::Custom(StakingError::InvalidInstruction),
        ),
        after == accounts,
{
    lemma_instruction_round_trip(instruction);
}

} // verus!
