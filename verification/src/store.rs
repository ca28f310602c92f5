//! Storage of one vault record: whether anything has been allocated at its
//! address, and the bytes that lie there.

use crate::error::MyProgramError;
use crate::state::vault_state::VaultState;
use vstd::prelude::*;

verus! {

/// How a service of the host answered a request.
#[derive(Clone, Copy, Debug, PartialEq, Eq, Structural)]
pub enum ServiceReply {
    /// The request was carried out.
    Done,
    /// The request was refused; nothing happened.
    Refused,
}

/// The storage at one record's address. Storage of length zero is storage
/// that was never allocated.
#[derive(Clone, Debug)]
pub struct RecordStore {
    pub data: Vec<u8>,
}

impl View for RecordStore {
    type V = Seq<u8>;

    open spec fn view(&self) -> Seq<u8> {
        self.data@
    }
}

impl RecordStore {
    /// Whether bytes are those of allocated storage.
    pub open spec fn occupied(bytes: Seq<u8>) -> bool {
        bytes.len() > 0
    }

    /// What allocation leaves behind: `size` zero bytes.
    pub open spec fn fresh(size: usize) -> Seq<u8> {
        Seq::new(size as nat, |i: int| 0u8)
    }

    /// Storage that holds `data`.
    pub fn new(data: Vec<u8>) -> (store: RecordStore)
        ensures
            store@ == data@,
    {
        RecordStore { data }
    }

    /// Storage at an address where nothing has been allocated.
    pub fn unallocated() -> (store: RecordStore)
        ensures
            store@ == Seq::<u8>::empty(),
    {
        RecordStore { data: Vec::new() }
    }

    /// Whether storage has been allocated.
    pub fn is_allocated(&self) -> (found: bool)
        ensures
            found == Self::occupied(self@),
    {
        self.data.len() > 0
    }

    /// The bytes in storage.
    pub fn as_bytes(&self) -> (bytes: &[u8])
        ensures
            bytes@ == self@,
    {
        self.data.as_slice()
    }

    /// Allocates `size` zero bytes, unless storage exists already or `size`
    /// is zero.
    pub fn allocate(&mut self, size: usize) -> (done: Result<(), MyProgramError>)
        ensures
            match done {
                Ok(()) => !Self::occupied(old(self)@) && size > 0 && final(self)@ == Self::fresh(
                    size,
                ),
                Err(e) => e == MyProgramError::AllocationError && (Self::occupied(old(self)@)
                    || size == 0) && final(self)@ == old(self)@,
            },
    {
        if self.data.len() > 0 || size == 0 {
            return Err(MyProgramError::AllocationError);
        }
        let mut i: usize = 0;
        while i < size
            invariant
                i <= size,
                self.data@ == Self::fresh(i),
            decreases size - i,
        {
            self.data.push(0);
            i += 1;
            assert(self.data@ =~= Self::fresh(i));
        }
        Ok(())
    }

    /// Reads the record in storage, after checking that storage exists, has
    /// a record's size and bears a known tag. The record may still be one
    /// that was never initialized.
    pub fn load(&self) -> (record: Result<VaultState, MyProgramError>)
        ensures
            match record {
                Ok(r) => VaultState::is_record(self@) && r == VaultState::decoding(self@),
                Err(MyProgramError::NotInitialized) => !Self::occupied(self@),
                Err(e) => e == MyProgramError::CorruptRecord && Self::occupied(self@)
                    && !VaultState::is_record(self@),
            },
    {
        if self.data.len() == 0 {
            return Err(MyProgramError::NotInitialized);
        }
        VaultState::from_bytes(self.data.as_slice())
    }

    /// Writes `record` over the record in storage. Storage of another size
    /// than a record's is left as it is.
    pub fn save(&mut self, record: &VaultState) -> (done: Result<(), MyProgramError>)
        ensures
            match done {
                Ok(()) => old(self)@.len() == VaultState::LEN && final(self)@ == record.encoding(),
                Err(e) => e == MyProgramError::CorruptRecord && old(self)@.len() != VaultState::LEN
                    && final(self)@ == old(self)@,
            },
    {
        if self.data.len() != VaultState::LEN {
            return Err(MyProgramError::CorruptRecord);
        }
        self.data = record.to_bytes();
        Ok(())
    }
}

} // verus!
