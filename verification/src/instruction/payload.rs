//! The fixed-layout payloads of the two operations.

use crate::error::MyProgramError;
use crate::layout::i64_le_bytes;
use crate::layout::le_i64;
use crate::layout::le_u64;
use crate::layout::lemma_i64_round_trip;
use crate::layout::lemma_u64_round_trip;
use crate::layout::push_i64_le;
use crate::layout::push_u64_le;
use crate::layout::push_zeros;
use crate::layout::read_i64_le;
use crate::layout::read_u64_le;
use crate::layout::u64_le_bytes;
use vstd::prelude::*;

verus! {

/// What `Initialize` is asked with: an amount, which initialization does not
/// read, the lock's duration in seconds, and the disambiguator of the
/// record's derived address.
#[derive(Clone, Copy, Debug, PartialEq, Eq, Structural)]
pub struct InitializeIxData {
    pub amount: u64,
    pub lock_duration: i64,
    pub bump: u8,
}

impl InitializeIxData {
    /// Size of the payload: each number at a multiple of its size, and the
    /// whole rounded up to a multiple of eight.
    pub const LEN: usize = 24;

    /// Whether `bytes` have the size of the payload.
    pub open spec fn fits(bytes: Seq<u8>) -> bool {
        bytes.len() == Self::LEN
    }

    /// The payload that bytes of the right size hold. The seven bytes after
    /// the disambiguator are not read.
    pub open spec fn decoding(bytes: Seq<u8>) -> InitializeIxData
        recommends
            Self::fits(bytes),
    {
        InitializeIxData {
            amount: le_u64(bytes.subrange(0, 8)) as u64,
            lock_duration: le_i64(bytes.subrange(8, 16)) as i64,
            bump: bytes[16],
        }
    }

    /// The payload as bytes, the unread ones zero.
    pub open spec fn encoding(self) -> Seq<u8> {
        u64_le_bytes(self.amount) + i64_le_bytes(self.lock_duration) + seq![self.bump] + Seq::new(
            7,
            |i: int| 0u8,
        )
    }

    /// Reads the payload, after checking its size.
    pub fn from_bytes(data: &[u8]) -> (payload: Result<InitializeIxData, MyProgramError>)
        ensures
            match payload {
                Ok(p) => Self::fits(data@) && p == Self::decoding(data@),
                Err(e) => e == MyProgramError::InvalidInstructionData && !Self::fits(data@),
            },
    {
        if data.len() != Self::LEN {
            return Err(MyProgramError::InvalidInstructionData);
        }
        Ok(
            InitializeIxData {
                amount: read_u64_le(data, 0),
                lock_duration: read_i64_le(data, 8),
                bump: data[16],
            },
        )
    }

    /// Writes the payload out.
    pub fn to_bytes(&self) -> (bytes: Vec<u8>)
        ensures
            bytes@ == self.encoding(),
    {
        let mut bytes: Vec<u8> = Vec::new();
        push_u64_le(&mut bytes, self.amount);
        push_i64_le(&mut bytes, self.lock_duration);
        bytes.push(self.bump);
        push_zeros(&mut bytes, 7);
        assert(bytes@ =~= self.encoding());
        bytes
    }

    /// What is written out is read back.
    pub proof fn lemma_round_trip(self)
        ensures
            Self::fits(self.encoding()),
            Self::decoding(self.encoding()) == self,
    {
        let bytes = self.encoding();
        lemma_u64_round_trip(self.amount);
        lemma_i64_round_trip(self.lock_duration);
        assert(bytes.subrange(0, 8) =~= u64_le_bytes(self.amount));
        assert(bytes.subrange(8, 16) =~= i64_le_bytes(self.lock_duration));
    }
}

impl Default for InitializeIxData {
    /// The payload of all zeros.
    fn default() -> (payload: InitializeIxData)
        ensures
            payload == (InitializeIxData { amount: 0, lock_duration: 0, bump: 0 }),
    {
        InitializeIxData { amount: 0, lock_duration: 0, bump: 0 }
    }
}

/// What `Deposit` is asked with: the amount to move into custody.
#[derive(Clone, Copy, Debug, PartialEq, Eq, Structural)]
pub struct DepositIxData {
    pub amount: u64,
}

impl DepositIxData {
    /// Size of the payload.
    pub const LEN: usize = 8;

    /// Whether `bytes` have the size of the payload.
    pub open spec fn fits(bytes: Seq<u8>) -> bool {
        bytes.len() == Self::LEN
    }

    /// The payload that bytes of the right size hold.
    pub open spec fn decoding(bytes: Seq<u8>) -> DepositIxData
        recommends
            Self::fits(bytes),
    {
        DepositIxData { amount: le_u64(bytes) as u64 }
    }

    /// The payload as bytes.
    pub open spec fn encoding(self) -> Seq<u8> {
        u64_le_bytes(self.amount)
    }

    /// Reads the payload, after checking its size.
    pub fn from_bytes(data: &[u8]) -> (payload: Result<DepositIxData, MyProgramError>)
        ensures
            match payload {
                Ok(p) => Self::fits(data@) && p == Self::decoding(data@),
                Err(e) => e == MyProgramError::InvalidInstructionData && !Self::fits(data@),
            },
    {
        if data.len() != Self::LEN {
            return Err(MyProgramError::InvalidInstructionData);
        }
        assert(data@.subrange(0, 8) =~= data@);
        Ok(DepositIxData { amount: read_u64_le(data, 0) })
    }

    /// Writes the payload out.
    pub fn to_bytes(&self) -> (bytes: Vec<u8>)
        ensures
            bytes@ == self.encoding(),
    {
        let mut bytes: Vec<u8> = Vec::new();
        push_u64_le(&mut bytes, self.amount);
        assert(bytes@ =~= self.encoding());
        bytes
    }

    /// What is written out is read back.
    pub proof fn lemma_round_trip(self)
        ensures
            Self::fits(self.encoding()),
            Self::decoding(self.encoding()) == self,
    {
        lemma_u64_round_trip(self.amount);
    }
}

} // verus!
