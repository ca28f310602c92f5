//! The vault record and its layout in storage.

use crate::error::MyProgramError;
use crate::layout::i64_le_bytes;
use crate::layout::key_of;
use crate::layout::le_i64;
use crate::layout::le_u64;
use crate::layout::lemma_i64_round_trip;
use crate::layout::lemma_key_of;
use crate::layout::lemma_u64_round_trip;
use crate::layout::push_i64_le;
use crate::layout::push_key;
use crate::layout::push_u64_le;
use crate::layout::push_zeros;
use crate::layout::read_i64_le;
use crate::layout::read_key;
use crate::layout::read_u64_le;
use crate::layout::u64_le_bytes;
use pinocchio::pubkey::Pubkey;
use vstd::prelude::*;

verus! {

/// One vault: who owns it, until when it is locked, how much it holds and
/// what the reference asset cost when it was created.
#[derive(Clone, Copy, Debug)]
pub struct VaultState {
    pub is_initialized: bool,
    pub user: Pubkey,
    pub expiration: i64,
    pub amount: u64,
    pub sol_price_at_initialization: u64,
    pub vault_bump: u8,
    pub state_bump: u8,
}

impl VaultState {
    /// Size of the record in storage.
    pub const LEN: usize = 72;

    /// The byte that marks the layout of a record: 1 once it is initialized,
    /// 0 before.
    pub open spec fn tag(self) -> u8 {
        if self.is_initialized {
            1
        } else {
            0
        }
    }

    /// The record as it lies in storage: the tag, the owner, the lock's end,
    /// the amount, the price and the two disambiguators, each number with its
    /// least significant byte first and at a multiple of its size; the gaps
    /// are zero.
    pub open spec fn encoding(self) -> Seq<u8> {
        seq![self.tag()] + self.user@ + Seq::new(7, |i: int| 0u8) + i64_le_bytes(self.expiration)
            + u64_le_bytes(self.amount) + u64_le_bytes(self.sol_price_at_initialization)
            + seq![self.vault_bump, self.state_bump] + Seq::new(6, |i: int| 0u8)
    }

    /// Whether `bytes` hold some record: they have the record's size and a
    /// known tag.
    pub open spec fn is_record(bytes: Seq<u8>) -> bool {
        bytes.len() == Self::LEN && bytes[0] <= 1
    }

    /// The record that `bytes` hold, each field read at its place. What the
    /// gaps hold is not asked.
    pub open spec fn decoding(bytes: Seq<u8>) -> VaultState
        recommends
            Self::is_record(bytes),
    {
        VaultState {
            is_initialized: bytes[0] == 1,
            user: key_of(bytes.subrange(1, 33)),
            expiration: le_i64(bytes.subrange(40, 48)) as i64,
            amount: le_u64(bytes.subrange(48, 56)) as u64,
            sol_price_at_initialization: le_u64(bytes.subrange(56, 64)) as u64,
            vault_bump: bytes[64],
            state_bump: bytes[65],
        }
    }

    /// Writes the record out as it lies in storage.
    pub fn to_bytes(&self) -> (bytes: Vec<u8>)
        ensures
            bytes@ == self.encoding(),
    {
        let mut bytes: Vec<u8> = Vec::new();
        bytes.push(if self.is_initialized { 1 } else { 0 });
        push_key(&mut bytes, &self.user);
        push_zeros(&mut bytes, 7);
        push_i64_le(&mut bytes, self.expiration);
        push_u64_le(&mut bytes, self.amount);
        push_u64_le(&mut bytes, self.sol_price_at_initialization);
        bytes.push(self.vault_bump);
        bytes.push(self.state_bump);
        push_zeros(&mut bytes, 6);
        assert(bytes@ =~= self.encoding());
        bytes
    }

    /// Reads a record from storage, after checking its size and its tag.
    pub fn from_bytes(data: &[u8]) -> (record: Result<VaultState, MyProgramError>)
        ensures
            match record {
                Ok(r) => Self::is_record(data@) && r == Self::decoding(data@),
                Err(e) => e == MyProgramError::CorruptRecord && !Self::is_record(data@),
            },
    {
        if data.len() != Self::LEN {
            return Err(MyProgramError::CorruptRecord);
        }
        let tag: u8 = data[0];
        if tag > 1 {
            return Err(MyProgramError::CorruptRecord);
        }
        Ok(
            VaultState {
                is_initialized: tag == 1,
                user: read_key(data, 1),
                expiration: read_i64_le(data, 40),
                amount: read_u64_le(data, 48),
                sol_price_at_initialization: read_u64_le(data, 56),
                vault_bump: data[64],
                state_bump: data[65],
            },
        )
    }

    /// What is written out is read back.
    pub proof fn lemma_round_trip(self)
        ensures
            Self::is_record(self.encoding()),
            Self::decoding(self.encoding()) == self,
    {
        let bytes = self.encoding();
        lemma_i64_round_trip(self.expiration);
        lemma_u64_round_trip(self.amount);
        lemma_u64_round_trip(self.sol_price_at_initialization);
        assert(bytes.len() == 72);
        assert(bytes.subrange(1, 33) =~= self.user@);
        assert(bytes.subrange(40, 48) =~= i64_le_bytes(self.expiration));
        assert(bytes.subrange(48, 56) =~= u64_le_bytes(self.amount));
        assert(bytes.subrange(56, 64) =~= u64_le_bytes(self.sol_price_at_initialization));
        lemma_key_of(self.user@);
    }

    /// Whether the record has been initialized.
    pub fn is_initialized(&self) -> (set: bool)
        ensures
            set == self.is_initialized,
    {
        self.is_initialized
    }

    /// Fills the record and marks it as initialized.
    pub fn initialize(
        &mut self,
        user: Pubkey,
        expiration: i64,
        amount: u64,
        sol_price_at_initialization: u64,
        vault_bump: u8,
        state_bump: u8,
    )
        ensures
            *final(self) == (VaultState {
                is_initialized: true,
                user,
                expiration,
                amount,
                sol_price_at_initialization,
                vault_bump,
                state_bump,
            }),
    {
        self.is_initialized = true;
        self.user = user;
        self.expiration = expiration;
        self.amount = amount;
        self.sol_price_at_initialization = sol_price_at_initialization;
        self.vault_bump = vault_bump;
        self.state_bump = state_bump;
    }
}

impl Default for VaultState {
    /// The record of fresh storage: not initialized, every field zero.
    fn default() -> (record: VaultState)
        ensures
            !record.is_initialized,
            record.user@ == Seq::new(32, |i: int| 0u8),
            record.expiration == 0,
            record.amount == 0,
            record.sol_price_at_initialization == 0,
            record.vault_bump == 0,
            record.state_bump == 0,
    {
        VaultState {
            is_initialized: false,
            user: [0u8; 32],
            expiration: 0,
            amount: 0,
            sol_price_at_initialization: 0,
            vault_bump: 0,
            state_bump: 0,
        }
    }
}

} // verus!
