use timelock_vault::error::MyProgramError;
use timelock_vault::state::vault_state::VaultState;
use timelock_vault::store::RecordStore;

fn record() -> VaultState {
    let mut record = VaultState::default();
    record.initialize([9; 32], 77, 3, 4, 5, 6);
    record
}

#[test]
fn empty_storage_does_not_exist() {
    assert!(!RecordStore::unallocated().is_allocated());
    assert!(!RecordStore::new(Vec::new()).is_allocated());
    assert!(RecordStore::new(vec![0]).is_allocated());
    assert!(RecordStore::new(vec![0; 72]).is_allocated());
}

#[test]
fn allocation_gives_zeroed_storage() {
    let mut store = RecordStore::unallocated();
    assert_eq!(store.allocate(72), Ok(()));
    assert_eq!(store.as_bytes(), &[0u8; 72][..]);
    assert!(store.is_allocated());
}

#[test]
fn allocation_of_occupied_storage_fails() {
    let mut store = RecordStore::new(vec![7; 10]);
    assert_eq!(store.allocate(72), Err(MyProgramError::AllocationError));
    assert_eq!(store.as_bytes(), &[7u8; 10][..]);
}

#[test]
fn allocation_of_nothing_fails() {
    let mut store = RecordStore::unallocated();
    assert_eq!(store.allocate(0), Err(MyProgramError::AllocationError));
    assert!(!store.is_allocated());
}

#[test]
fn load_of_missing_storage_is_not_initialized() {
    assert_eq!(RecordStore::unallocated().load().unwrap_err(), MyProgramError::NotInitialized);
}

#[test]
fn load_of_odd_storage_is_corrupt() {
    assert_eq!(RecordStore::new(vec![1; 5]).load().unwrap_err(), MyProgramError::CorruptRecord);
    assert_eq!(RecordStore::new(vec![3; 72]).load().unwrap_err(), MyProgramError::CorruptRecord);
}

#[test]
fn save_then_load_gives_the_record() {
    let mut store = RecordStore::unallocated();
    store.allocate(VaultState::LEN).unwrap();
    assert!(!store.load().unwrap().is_initialized());
    assert_eq!(store.save(&record()), Ok(()));
    assert_eq!(store.as_bytes(), &record().to_bytes()[..]);
    let read = store.load().unwrap();
    assert_eq!(read.to_bytes(), record().to_bytes());
    assert_eq!(read.expiration, 77);
}

#[test]
fn save_into_storage_of_another_size_fails() {
    let mut missing = RecordStore::unallocated();
    assert_eq!(missing.save(&record()), Err(MyProgramError::CorruptRecord));
    assert!(!missing.is_allocated());
    let mut short = RecordStore::new(vec![1; 71]);
    assert_eq!(short.save(&record()), Err(MyProgramError::CorruptRecord));
    assert_eq!(short.as_bytes(), &[1u8; 71][..]);
}
