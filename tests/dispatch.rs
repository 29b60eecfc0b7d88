use staking_pool::{process, AccountInfo, Instruction, PoolStorageAccount, ProgramError, Pubkey, StakingError};

fn key(b: u8) -> Pubkey {
    Pubkey::new_from_array([b; 32])
}

fn program_id() -> Pubkey {
    key(0xaa)
}

fn signer(b: u8, signed: bool) -> AccountInfo {
    AccountInfo { key: key(b), is_signer: signed, owner: key(0), data: Vec::new() }
}

fn storage(owner: Pubkey, data: Vec<u8>) -> AccountInfo {
    AccountInfo { key: key(0x55), is_signer: false, owner, data }
}

fn initialize(rate: u64) -> Vec<u8> {
    Instruction::Initialize { rewards_per_token: rate }.pack()
}

#[test]
fn initialize_on_zeroed_storage() {
    let mut accounts = vec![signer(0x41, true), storage(program_id(), vec![0u8; 57])];
    assert_eq!(process(&program_id(), &mut accounts, &initialize(500)), Ok(()));
    let r = PoolStorageAccount::unpack(&accounts[1].data).unwrap();
    assert_eq!(
        r,
        PoolStorageAccount {
            pool_authority: key(0x41),
            total_staked: 0,
            user_count: 0,
            rewards_per_token: 500,
            is_initialized: true,
        }
    );
    assert_eq!(accounts[0].data, Vec::<u8>::new());
    assert!(accounts[1].key.same_as(&key(0x55)));
}

#[test]
fn second_initialize_is_rejected() {
    let mut accounts = vec![signer(0x41, true), storage(program_id(), vec![0u8; 57])];
    assert_eq!(process(&program_id(), &mut accounts, &initialize(500)), Ok(()));
    let after_first = accounts[1].data.clone();
    accounts[0] = signer(0x42, true);
    assert_eq!(
        process(&program_id(), &mut accounts, &initialize(999)),
        Err(ProgramError::Custom(StakingError::AccountInitialized))
    );
    assert_eq!(accounts[1].data, after_first);
    let r = PoolStorageAccount::unpack(&accounts[1].data).unwrap();
    assert_eq!(r.pool_authority, key(0x41));
    assert_eq!(r.total_staked, 0);
    assert_eq!(r.user_count, 0);
    assert_eq!(r.rewards_per_token, 500);
    assert!(r.is_initialized);
}

#[test]
fn stake_is_not_handled() {
    let mut accounts = vec![signer(0x41, true), storage(program_id(), vec![0u8; 57])];
    let bytes = Instruction::Stake { amount: 10 }.pack();
    assert_eq!(
        process(&program_id(), &mut accounts, &bytes),
        Err(ProgramError::Custom(StakingError::InvalidInstruction))
    );
    assert_eq!(accounts[1].data, vec![0u8; 57]);
}

#[test]
fn other_unhandled_instructions_fail() {
    for ins in [Instruction::CreateUser {}, Instruction::Unstake { amount: 3 }, Instruction::Claim {}] {
        let mut accounts = vec![signer(0x41, true), storage(program_id(), vec![0u8; 57])];
        assert_eq!(
            process(&program_id(), &mut accounts, &ins.pack()),
            Err(ProgramError::Custom(StakingError::InvalidInstruction))
        );
        assert_eq!(accounts[1].data, vec![0u8; 57]);
    }
}

#[test]
fn undecodable_instruction_fails() {
    let mut accounts = vec![signer(0x41, true), storage(program_id(), vec![0u8; 57])];
    for bytes in [vec![], vec![9u8], vec![0u8, 1, 2]] {
        assert_eq!(
            process(&program_id(), &mut accounts, &bytes),
            Err(ProgramError::Custom(StakingError::InvalidInstruction))
        );
    }
    assert_eq!(accounts[1].data, vec![0u8; 57]);
}

#[test]
fn unsigned_authority_is_rejected() {
    let initialized = PoolStorageAccount {
        pool_authority: key(1),
        total_staked: 5,
        user_count: 1,
        rewards_per_token: 7,
        is_initialized: true,
    }
    .pack();
    for data in [vec![0u8; 57], initialized, vec![3u8; 10]] {
        let mut accounts = vec![signer(0x41, false), storage(key(0x13), data.clone())];
        assert_eq!(
            process(&program_id(), &mut accounts, &initialize(500)),
            Err(ProgramError::Custom(StakingError::InvalidSigner))
        );
        assert_eq!(accounts[1].data, data);
    }
    let mut alone = vec![signer(0x41, false)];
    assert_eq!(
        process(&program_id(), &mut alone, &initialize(500)),
        Err(ProgramError::Custom(StakingError::InvalidSigner))
    );
}

#[test]
fn foreign_storage_is_rejected() {
    let mut accounts = vec![signer(0x41, true), storage(key(0x13), vec![0u8; 57])];
    assert_eq!(
        process(&program_id(), &mut accounts, &initialize(500)),
        Err(ProgramError::Custom(StakingError::InvalidOwner))
    );
    assert_eq!(accounts[1].data, vec![0u8; 57]);
}

#[test]
fn missing_accounts_are_reported() {
    let mut none: Vec<AccountInfo> = Vec::new();
    assert_eq!(
        process(&program_id(), &mut none, &initialize(1)),
        Err(ProgramError::NotEnoughAccountKeys)
    );
    let mut one = vec![signer(0x41, true)];
    assert_eq!(
        process(&program_id(), &mut one, &initialize(1)),
        Err(ProgramError::NotEnoughAccountKeys)
    );
}

#[test]
fn storage_without_a_record_is_reported() {
    for data in [vec![0u8; 10], vec![0u8; 58]] {
        let mut accounts = vec![signer(0x41, true), storage(program_id(), data.clone())];
        assert_eq!(
            process(&program_id(), &mut accounts, &initialize(1)),
            Err(ProgramError::InvalidAccountData)
        );
        assert_eq!(accounts[1].data, data);
    }
    let mut bad_flag = vec![0u8; 57];
    bad_flag[56] = 7;
    let mut accounts = vec![signer(0x41, true), storage(program_id(), bad_flag)];
    assert_eq!(
        process(&program_id(), &mut accounts, &initialize(1)),
        Err(ProgramError::InvalidAccountData)
    );
}

#[test]
fn extra_accounts_are_left_alone() {
    let extra = AccountInfo { key: key(0x77), is_signer: true, owner: program_id(), data: vec![0u8; 57] };
    let mut accounts = vec![signer(0x41, true), storage(program_id(), vec![0u8; 57]), extra];
    assert_eq!(process(&program_id(), &mut accounts, &initialize(8)), Ok(()));
    assert_eq!(accounts[2].data, vec![0u8; 57]);
    assert_eq!(accounts[1].data[56], 1);
}

#[test]
fn error_codes_follow_declaration_order() {
    assert_eq!(StakingError::InvalidInstruction.code(), 0);
    assert_eq!(StakingError::InvalidSigner.code(), 1);
    assert_eq!(StakingError::InvalidOwner.code(), 2);
    assert_eq!(StakingError::AccountInitialized.code(), 3);
    assert_eq!(ProgramError::from(StakingError::InvalidOwner), ProgramError::Custom(StakingError::InvalidOwner));
}
