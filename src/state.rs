//! The pool record kept in the storage account, and its byte layout: the
//! authority's 32 bytes, then `total_staked`, `user_count` and
//! `rewards_per_token` as little-endian `u64`s, then one byte for the flag.
use crate::codec::{read_u64, u64_from_le, u64_le, write_u64, lemma_u64_le_round_trip, lemma_u64_from_le_round_trip};
use crate::pubkey::{Pubkey, PUBKEY_BYTES};
use vstd::prelude::*;

verus! {

/// Bytes of an encoded pool record.
pub const POOL_RECORD_LEN: usize = 57;

/// The state of a staking pool, persisted in its storage account.
#[derive(Debug, Clone, Copy, PartialEq, Eq)]
pub struct PoolStorageAccount {
    /// The identity that initialized the pool.
    pub pool_authority: Pubkey,
    /// Total amount of tokens staked in the pool.
    pub total_staked: u64,
    /// Number of users taking part in the pool.
    pub user_count: u64,
    /// Reward rate per staked token, fixed at initialization.
    pub rewards_per_token: u64,
    /// Whether the pool has been initialized.
    pub is_initialized: bool,
}

/// The mathematical value of a pool record.
pub ghost struct PoolState {
    pub pool_authority: Seq<u8>,
    pub total_staked: u64,
    pub user_count: u64,
    pub rewards_per_token: u64,
    pub is_initialized: bool,
}

impl View for PoolStorageAccount {
    type V = PoolState;

    open spec fn view(&self) -> PoolState {
        PoolState {
            pool_authority: self.pool_authority@,
            total_staked: self.total_staked,
            user_count: self.user_count,
            rewards_per_token: self.rewards_per_token,
            is_initialized: self.is_initialized,
        }
    }
}

/// The byte that encodes a flag.
pub open spec fn bool_byte(b: bool) -> u8 {
    if b {
        1u8
    } else {
        0u8
    }
}

/// The stored bytes of the record `s`.
pub open spec fn record_bytes(s: PoolState) -> Seq<u8> {
    s.pool_authority + u64_le(s.total_staked) + u64_le(s.user_count) + u64_le(
        s.rewards_per_token,
    ) + seq![bool_byte(s.is_initialized)]
}

/// The record that the bytes `b` hold, if they hold one exactly: 57 bytes
/// whose last byte is 0 or 1.
pub open spec fn record_from_bytes(b: Seq<u8>) -> Option<PoolState> {
    if b.len() == 57 && b[56] <= 1 {
        Some(
            PoolState {
                pool_authority: b.subrange(0, 32),
                total_staked: u64_from_le(b.subrange(32, 40)),
                user_count: u64_from_le(b.subrange(40, 48)),
                rewards_per_token: u64_from_le(b.subrange(48, 56)),
                is_initialized: b[56] == 1,
            },
        )
    } else {
        None
    }
}

impl PoolStorageAccount {
    /// Whether the pool has been initialized.
    pub fn is_initialized(&self) -> (r: bool)
        ensures
            r == self.is_initialized,
    {
        self.is_initialized
    }

    /// The stored bytes of this record.
    pub fn pack(&self) -> (r: Vec<u8>)
        ensures
            r@ == record_bytes(self@),
    {
        let mut out: Vec<u8> = Vec::new();
        let mut i: usize = 0;
        while i < PUBKEY_BYTES
            invariant
                i <= PUBKEY_BYTES,
                self.pool_authority@.len() == 32,
                out@ == self.pool_authority@.subrange(0, i as int),
            decreases PUBKEY_BYTES - i,
        {
            out.push(self.pool_authority.bytes[i]);
            i = i + 1;
            assert(out@ =~= self.pool_authority@.subrange(0, i as int));
        }
        assert(out@ =~= self.pool_authority@);
        write_u64(&mut out, self.total_staked);
        write_u64(&mut out, self.user_count);
        write_u64(&mut out, self.rewards_per_token);
        out.push(if self.is_initialized { 1u8 } else { 0u8 });
        assert(out@ =~= record_bytes(self@));
        out
    }

    /// Decodes the record held by `data`; `None` where the bytes are not
    /// exactly one record. All-zero bytes decode to an uninitialized record.
    pub fn unpack(data: &[u8]) -> (r: Option<PoolStorageAccount>)
        ensures
            r matches Some(a) ==> record_from_bytes(data@) == Some(a@),
            r is None ==> record_from_bytes(data@) is None,
    {
        if data.len() != POOL_RECORD_LEN || data[56] > 1 {
            return None;
        }
        let mut bytes = [0u8; 32];
        let mut i: usize = 0;
        while i < PUBKEY_BYTES
            invariant
                i <= PUBKEY_BYTES,
                data@.len() == 57,
                bytes@.len() == 32,
                forall|j: int| 0 <= j < i ==> bytes@[j] == data@[j],
            decreases PUBKEY_BYTES - i,
        {
            bytes[i] = data[i];
            i = i + 1;
        }
        assert(bytes@ =~= data@.subrange(0, 32));
        Some(
            PoolStorageAccount {
                pool_authority: Pubkey::new_from_array(bytes),
                total_staked: read_u64(data, 32),
                user_count: read_u64(data, 40),
                rewards_per_token: read_u64(data, 48),
                is_initialized: data[56] == 1,
            },
        )
    }
}

/// Decoding the stored bytes of a record gives that record back.
pub proof fn lemma_record_round_trip(r: PoolStorageAccount)
    ensures
        record_from_bytes(record_bytes(r@)) == Some(r@),
{
    lemma_record_round_trip_state(r@);
}

/// Decoding the stored bytes of any record value whose authority has 32
/// bytes gives that value back.
pub proof fn lemma_record_round_trip_state(s: PoolState)
    requires
        s.pool_authority.len() == 32,
    ensures
        record_from_bytes(record_bytes(s)) == Some(s),
{
    let b = record_bytes(s);
    lemma_u64_le_round_trip(s.total_staked);
    lemma_u64_le_round_trip(s.user_count);
    lemma_u64_le_round_trip(s.rewards_per_token);
    assert(b.subrange(0, 32) =~= s.pool_authority);
    assert(b.subrange(32, 40) =~= u64_le(s.total_staked));
    assert(b.subrange(40, 48) =~= u64_le(s.user_count));
    assert(b.subrange(48, 56) =~= u64_le(s.rewards_per_token));
    assert(b.len() == 57 && b[56] == bool_byte(s.is_initialized));
}

/// Bytes that decode to a record are exactly the stored bytes of it: each
/// record has a single encoding.
pub proof fn lemma_record_bytes_unique(b: Seq<u8>)
    requires
        record_from_bytes(b) is Some,
    ensures
        record_bytes(record_from_bytes(b)->0) == b,
{
    lemma_u64_from_le_round_trip(b.subrange(32, 40));
    lemma_u64_from_le_round_trip(b.subrange(40, 48));
    lemma_u64_from_le_round_trip(b.subrange(48, 56));
    assert(bool_byte(b[56] == 1) == b[56]);
    assert(record_bytes(record_from_bytes(b)->0) =~= b);
}

/// A freshly allocated, all-zero storage buffer holds an uninitialized record
/// whose fields are all zero.
pub proof fn lemma_zeroed_record()
    ensures
        record_from_bytes(Seq::new(57, |i: int| 0u8)) == Some(
            PoolState {
                pool_authority: Seq::new(32, |i: int| 0u8),
                total_staked: 0,
                user_count: 0,
                rewards_per_token: 0,
                is_initialized: false,
            },
        ),
{
    let z = Seq::new(57, |i: int| 0u8);
    let zero8 = z.subrange(32, 40);
    assert(z.subrange(40, 48) =~= zero8);
    assert(z.subrange(48, 56) =~= zero8);
    assert(z.subrange(0, 32) =~= Seq::new(32, |i: int| 0u8));
    let (b0, b1, b2, b3, b4, b5, b6, b7) = (zero8[0], zero8[1], zero8[2], zero8[3], zero8[4], zero8[5], zero8[6], zero8[7]);
    assert((b0 as u64) | ((b1 as u64) << 8u64) | ((b2 as u64) << 16u64) | ((b3 as u64) << 24u64)
        | ((b4 as u64) << 32u64) | ((b5 as u64) << 40u64) | ((b6 as u64) << 48u64) | ((b7 as u64)
        << 56u64) == 0) by (bit_vector)
        requires
            b0 == 0 && b1 == 0 && b2 == 0 && b3 == 0 && b4 == 0 && b5 == 0 && b6 == 0 && b7 == 0,
    ;
}

} // verus!
