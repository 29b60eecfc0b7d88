use staking_pool::{Instruction, StakingError};

#[test]
fn initialize_packs_tag_then_little_endian_rate() {
    let bytes = Instruction::Initialize { rewards_per_token: 500 }.pack();
    assert_eq!(bytes, vec![0u8, 0xf4, 0x01, 0, 0, 0, 0, 0, 0]);
}

#[test]
fn each_variant_packs_its_tag() {
    assert_eq!(Instruction::CreateUser {}.pack(), vec![1u8]);
    assert_eq!(Instruction::Stake { amount: 10 }.pack(), vec![2u8, 10, 0, 0, 0, 0, 0, 0, 0]);
    assert_eq!(
        Instruction::Unstake { amount: 0x0102030405060708 }.pack(),
        vec![3u8, 8, 7, 6, 5, 4, 3, 2, 1]
    );
    assert_eq!(Instruction::Claim {}.pack(), vec![4u8]);
}

#[test]
fn unpack_decodes_each_variant() {
    assert_eq!(
        Instruction::unpack(&[0u8, 0xf4, 0x01, 0, 0, 0, 0, 0, 0]),
        Ok(Instruction::Initialize { rewards_per_token: 500 })
    );
    assert_eq!(Instruction::unpack(&[1u8]), Ok(Instruction::CreateUser {}));
    assert_eq!(
        Instruction::unpack(&[2u8, 10, 0, 0, 0, 0, 0, 0, 0]),
        Ok(Instruction::Stake { amount: 10 })
    );
    assert_eq!(
        Instruction::unpack(&[3u8, 0xff, 0xff, 0xff, 0xff, 0xff, 0xff, 0xff, 0xff]),
        Ok(Instruction::Unstake { amount: u64::MAX })
    );
    assert_eq!(Instruction::unpack(&[4u8]), Ok(Instruction::Claim {}));
}

#[test]
fn empty_bytes_are_rejected() {
    assert_eq!(Instruction::unpack(&[]), Err(StakingError::InvalidInstruction));
}

#[test]
fn unknown_tags_are_rejected() {
    for tag in 5u8..=255 {
        assert_eq!(Instruction::unpack(&[tag]), Err(StakingError::InvalidInstruction));
        assert_eq!(
            Instruction::unpack(&[tag, 1, 0, 0, 0, 0, 0, 0, 0]),
            Err(StakingError::InvalidInstruction)
        );
    }
}

#[test]
fn truncated_payload_is_rejected() {
    for len in 1..9 {
        let mut bytes = vec![0u8; len];
        bytes[0] = 0;
        assert_eq!(Instruction::unpack(&bytes), Err(StakingError::InvalidInstruction));
        bytes[0] = 2;
        assert_eq!(Instruction::unpack(&bytes), Err(StakingError::InvalidInstruction));
        bytes[0] = 3;
        assert_eq!(Instruction::unpack(&bytes), Err(StakingError::InvalidInstruction));
    }
}

#[test]
fn trailing_bytes_are_rejected() {
    assert_eq!(Instruction::unpack(&[1u8, 0]), Err(StakingError::InvalidInstruction));
    assert_eq!(Instruction::unpack(&[4u8, 0]), Err(StakingError::InvalidInstruction));
    assert_eq!(
        Instruction::unpack(&[0u8, 1, 0, 0, 0, 0, 0, 0, 0, 0]),
        Err(StakingError::InvalidInstruction)
    );
}

#[test]
fn instruction_round_trip() {
    let all = [
        Instruction::Initialize { rewards_per_token: 0 },
        Instruction::Initialize { rewards_per_token: u64::MAX },
        Instruction::CreateUser {},
        Instruction::Stake { amount: 123456789 },
        Instruction::Unstake { amount: 1 },
        Instruction::Claim {},
    ];
    for ins in all.iter() {
        assert_eq!(Instruction::unpack(&ins.pack()), Ok(*ins));
    }
}
