//! The program's instructions and their wire format: a one-byte tag in
//! declaration order, then the variant's fields as little-endian integers.
use crate::codec::{read_u64, u64_from_le, u64_le, write_u64, lemma_u64_le_round_trip, lemma_u64_from_le_round_trip};
use crate::error::StakingError;
use vstd::prelude::*;

verus! {

/// An operation requested of the program.
#[derive(Debug, Clone, Copy, PartialEq, Eq, Structural)]
pub enum Instruction {
    /// Sets up the pool with the given reward rate per staked token.
    Initialize { rewards_per_token: u64 },
    /// Registers a user with the pool.
    CreateUser {},
    /// Stakes `amount` tokens.
    Stake { amount: u64 },
    /// Withdraws `amount` staked tokens.
    Unstake { amount: u64 },
    /// Claims the rewards earned so far.
    Claim {},
}

/// Bytes of an instruction that carries no fields after its tag.
pub const TAG_ONLY_LEN: usize = 1;

/// Bytes of an instruction whose tag is followed by one `u64`.
pub const TAG_AND_U64_LEN: usize = 9;

/// The wire bytes of `i`.
pub open spec fn instruction_bytes(i: Instruction) -> Seq<u8> {
    match i {
        Instruction::Initialize { rewards_per_token } => seq![0u8] + u64_le(rewards_per_token),
        Instruction::CreateUser {  } => seq![1u8],
        Instruction::Stake { amount } => seq![2u8] + u64_le(amount),
        Instruction::Unstake { amount } => seq![3u8] + u64_le(amount),
        Instruction::Claim {  } => seq![4u8],
    }
}

/// The instruction that the bytes `b` hold, if they hold one exactly: a known
/// tag followed by precisely the fields of its variant.
pub open spec fn instruction_from_bytes(b: Seq<u8>) -> Option<Instruction> {
    if b.len() == 9 && b[0] == 0 {
        Some(Instruction::Initialize { rewards_per_token: u64_from_le(b.subrange(1, 9)) })
    } else if b.len() == 1 && b[0] == 1 {
        Some(Instruction::CreateUser {  })
    } else if b.len() == 9 && b[0] == 2 {
        Some(Instruction::Stake { amount: u64_from_le(b.subrange(1, 9)) })
    } else if b.len() == 9 && b[0] == 3 {
        Some(Instruction::Unstake { amount: u64_from_le(b.subrange(1, 9)) })
    } else if b.len() == 1 && b[0] == 4 {
        Some(Instruction::Claim {  })
    } else {
        None
    }
}

impl Instruction {
    /// The wire bytes of this instruction.
    pub fn pack(&self) -> (r: Vec<u8>)
        ensures
            r@ == instruction_bytes(*self),
    {
        let mut out: Vec<u8> = Vec::new();
        match self {
            Instruction::Initialize { rewards_per_token } => {
                out.push(0u8);
                write_u64(&mut out, *rewards_per_token);
            },
            Instruction::CreateUser {  } => {
                out.push(1u8);
            },
            Instruction::Stake { amount } => {
                out.push(2u8);
                write_u64(&mut out, *amount);
            },
            Instruction::Unstake { amount } => {
                out.push(3u8);
                write_u64(&mut out, *amount);
            },
            Instruction::Claim {  } => {
                out.push(4u8);
            },
        }
        assert(out@ =~= instruction_bytes(*self));
        out
    }

    /// Decodes the instruction held by `data`; fails with `InvalidInstruction`
    /// on an unknown tag, a missing field byte, or bytes left over.
    pub fn unpack(data: &[u8]) -> (r: Result<Instruction, StakingError>)
        ensures
            r == (match instruction_from_bytes(data@) {
                Some(i) => Ok(i),
                None => Err(StakingError::InvalidInstruction),
            }),
    {
        let len = data.len();
        if len == 0 {
            return Err(StakingError::InvalidInstruction);
        }
        let tag = data[0];
        if len == TAG_AND_U64_LEN && tag == 0 {
            Ok(Instruction::Initialize { rewards_per_token: read_u64(data, 1) })
        } else if len == TAG_ONLY_LEN && tag == 1 {
            Ok(Instruction::CreateUser {  })
        } else if len == TAG_AND_U64_LEN && tag == 2 {
            Ok(Instruction::Stake { amount: read_u64(data, 1) })
        } else if len == TAG_AND_U64_LEN && tag == 3 {
            Ok(Instruction::Unstake { amount: read_u64(data, 1) })
        } else if len == TAG_ONLY_LEN && tag == 4 {
            Ok(Instruction::Claim {  })
        } else {
            Err(StakingError::InvalidInstruction)
        }
    }
}

/// Bytes that are empty, that start with a tag no variant has, or that stop
/// before the fields of their variant do not decode to any instruction.
pub proof fn lemma_malformed_instruction_rejected(b: Seq<u8>)
    requires
        b.len() == 0 || b[0] > 4 || ((b[0] == 0 || b[0] == 2 || b[0] == 3) && b.len() < 9),
    ensures
        instruction_from_bytes(b) is None,
{
}

/// Decoding the bytes of an instruction gives that instruction back.
pub proof fn lemma_instruction_round_trip(i: Instruction)
    ensures
        instruction_from_bytes(instruction_bytes(i)) == Some(i),
{
    let b = instruction_bytes(i);
    match i {
        Instruction::Initialize { rewards_per_token: v } => {
            lemma_u64_le_round_trip(v);
            assert(b.subrange(1, 9) =~= u64_le(v));
        },
        Instruction::Stake { amount: v } => {
            lemma_u64_le_round_trip(v);
            assert(b.subrange(1, 9) =~= u64_le(v));
        },
        Instruction::Unstake { amount: v } => {
            lemma_u64_le_round_trip(v);
            assert(b.subrange(1, 9) =~= u64_le(v));
        },
        _ => {},
    }
}

/// Bytes that decode to an instruction are exactly the bytes of it: each
/// instruction has a single encoding.
pub proof fn lemma_instruction_bytes_unique(b: Seq<u8>)
    requires
        instruction_from_bytes(b) is Some,
    ensures
        instruction_bytes(instruction_from_bytes(b)->0) == b,
{
    if b.len() == 9 {
        lemma_u64_from_le_round_trip(b.subrange(1, 9));
        assert(b =~= seq![b[0]] + b.subrange(1, 9));
    }
    assert(instruction_bytes(instruction_from_bytes(b)->0) =~= b);
}

} // verus!
