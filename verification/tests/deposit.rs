use timelock_vault::constants::VaultConfig;
use timelock_vault::constants::MIN_DEPOSIT;
use timelock_vault::constants::SOL_ID;
use timelock_vault::error::MyProgramError;
use timelock_vault::instruction::deposit::complete_deposit;
use timelock_vault::instruction::deposit::load_initialized;
use timelock_vault::instruction::deposit::process_deposit;
use timelock_vault::instruction::deposit::DepositAccounts;
use timelock_vault::instruction::deposit::Transfer;
use timelock_vault::instruction::initialize::complete_initialize;
use timelock_vault::instruction::initialize::process_initialize;
use timelock_vault::instruction::initialize::InitializeAccounts;
use timelock_vault::instruction::payload::DepositIxData;
use timelock_vault::instruction::payload::InitializeIxData;
use timelock_vault::oracle::feed_id_from_symbol;
use timelock_vault::oracle::PriceUpdate;
use timelock_vault::oracle::VerificationLevel;
use timelock_vault::state::vault_state::VaultState;
use timelock_vault::store::RecordStore;
use timelock_vault::store::ServiceReply;

const OWNER: [u8; 32] = [0xa1; 32];
const SOURCE: [u8; 32] = [0xa2; 32];
const RECORD_ADDRESS: [u8; 32] = [0x5e; 32];
const CUSTODY: [u8; 32] = [0xc0; 32];
const START: i64 = 1_700_000_000;

fn depositor() -> DepositAccounts {
    DepositAccounts {
        user: OWNER,
        user_ata: SOURCE,
        vault_state: RECORD_ADDRESS,
        vault: CUSTODY,
        vault_owner: RECORD_ADDRESS,
    }
}

fn amount(value: u64) -> Vec<u8> {
    DepositIxData { amount: value }.to_bytes()
}

fn vault_with(balance: u64) -> RecordStore {
    let mut record = VaultState::default();
    record.initialize(OWNER, START + 2_592_000, balance, 1_500_000_000_000, 254, 254);
    RecordStore::new(record.to_bytes())
}

fn deposit(who: &DepositAccounts, store: &RecordStore, data: &[u8]) -> Result<Transfer, MyProgramError> {
    process_deposit(&VaultConfig::standard(), who, store, data)
}

fn refusal(result: Result<Transfer, MyProgramError>) -> MyProgramError {
    match result {
        Ok(_) => panic!("the request went through"),
        Err(e) => e,
    }
}

#[test]
fn deposit_decides_the_transfer() {
    let transfer = deposit(&depositor(), &vault_with(0), &amount(3_000_000_000)).unwrap();
    assert_eq!(transfer.from, SOURCE);
    assert_eq!(transfer.to, CUSTODY);
    assert_eq!(transfer.authority, OWNER);
    assert_eq!(transfer.amount, 3_000_000_000);
}

#[test]
fn deposit_one_unit_short_is_refused() {
    let result = deposit(&depositor(), &vault_with(0), &amount(MIN_DEPOSIT - 1));
    assert_eq!(refusal(result), MyProgramError::DepositTooSmall);
    let nothing = deposit(&depositor(), &vault_with(0), &amount(0));
    assert_eq!(refusal(nothing), MyProgramError::DepositTooSmall);
}

#[test]
fn deposit_of_exactly_the_floor_is_accepted() {
    let mut store = vault_with(0);
    let transfer = deposit(&depositor(), &store, &amount(MIN_DEPOSIT)).unwrap();
    assert_eq!(transfer.amount, 1_000_000_000);
    assert_eq!(complete_deposit(&mut store, &transfer, ServiceReply::Done), Ok(()));
    assert_eq!(store.load().unwrap().amount, 1_000_000_000);
}

#[test]
fn injected_deposit_floor_replaces_the_standard_one() {
    let config = VaultConfig { min_deposit: 5, ..VaultConfig::standard() };
    let store = vault_with(0);
    assert!(process_deposit(&config, &depositor(), &store, &amount(5)).is_ok());
    assert_eq!(
        refusal(process_deposit(&config, &depositor(), &store, &amount(4))),
        MyProgramError::DepositTooSmall
    );
}

#[test]
fn stranger_cannot_deposit_and_nothing_is_transferred() {
    let mut stranger = depositor();
    stranger.user = [0xee; 32];
    let store = vault_with(0);
    let result = deposit(&stranger, &store, &amount(MIN_DEPOSIT));
    assert_eq!(refusal(result), MyProgramError::OwnerMismatch);
    assert_eq!(store.load().unwrap().amount, 0);
    let mut close = depositor();
    close.user[31] ^= 1;
    assert_eq!(refusal(deposit(&close, &store, &amount(MIN_DEPOSIT))), MyProgramError::OwnerMismatch);
}

#[test]
fn custody_account_not_of_the_record_is_refused() {
    let mut who = depositor();
    who.vault_owner = OWNER;
    let result = deposit(&who, &vault_with(0), &amount(MIN_DEPOSIT));
    assert_eq!(refusal(result), MyProgramError::OwnerMismatch);
}

#[test]
fn deposit_into_missing_record_is_refused() {
    let result = deposit(&depositor(), &RecordStore::unallocated(), &amount(MIN_DEPOSIT));
    assert_eq!(refusal(result), MyProgramError::NotInitialized);
}

#[test]
fn deposit_into_blank_record_is_refused() {
    let blank = RecordStore::new(vec![0; 72]);
    let result = deposit(&depositor(), &blank, &amount(MIN_DEPOSIT));
    assert_eq!(refusal(result), MyProgramError::NotInitialized);
    assert_eq!(load_initialized(&blank).unwrap_err(), MyProgramError::NotInitialized);
}

#[test]
fn deposit_into_corrupt_record_is_refused() {
    let short = RecordStore::new(vec![1; 40]);
    assert_eq!(
        refusal(deposit(&depositor(), &short, &amount(MIN_DEPOSIT))),
        MyProgramError::CorruptRecord
    );
    let mut bytes = vault_with(0).as_bytes().to_vec();
    bytes[0] = 9;
    let tagged = RecordStore::new(bytes);
    assert_eq!(
        refusal(deposit(&depositor(), &tagged, &amount(MIN_DEPOSIT))),
        MyProgramError::CorruptRecord
    );
}

#[test]
fn malformed_deposit_payload_is_refused() {
    let result = deposit(&depositor(), &vault_with(0), &[0u8; 24]);
    assert_eq!(refusal(result), MyProgramError::InvalidInstructionData);
    let whole = InitializeIxData { amount: MIN_DEPOSIT, lock_duration: 0, bump: 0 }.to_bytes();
    assert_eq!(
        refusal(deposit(&depositor(), &vault_with(0), &whole)),
        MyProgramError::InvalidInstructionData
    );
}

#[test]
fn deposit_past_the_greatest_balance_is_refused() {
    let full = vault_with(u64::MAX - MIN_DEPOSIT + 1);
    assert_eq!(refusal(deposit(&depositor(), &full, &amount(MIN_DEPOSIT))), MyProgramError::WriteOverflow);
    let mut nearly = vault_with(u64::MAX - MIN_DEPOSIT);
    let transfer = deposit(&depositor(), &nearly, &amount(MIN_DEPOSIT)).unwrap();
    complete_deposit(&mut nearly, &transfer, ServiceReply::Done).unwrap();
    assert_eq!(nearly.load().unwrap().amount, u64::MAX);
}

#[test]
fn deposit_checks_fail_in_order() {
    let mut who = depositor();
    who.user = [0xee; 32];
    who.vault_owner = OWNER;
    let missing = RecordStore::unallocated();
    assert_eq!(refusal(deposit(&who, &missing, &[])), MyProgramError::InvalidInstructionData);
    assert_eq!(refusal(deposit(&who, &missing, &amount(1))), MyProgramError::NotInitialized);
    let full = vault_with(u64::MAX);
    assert_eq!(refusal(deposit(&who, &full, &amount(1))), MyProgramError::DepositTooSmall);
    assert_eq!(refusal(deposit(&who, &full, &amount(MIN_DEPOSIT))), MyProgramError::OwnerMismatch);
    who.user = OWNER;
    assert_eq!(refusal(deposit(&who, &full, &amount(MIN_DEPOSIT))), MyProgramError::OwnerMismatch);
    who.vault_owner = RECORD_ADDRESS;
    assert_eq!(refusal(deposit(&who, &full, &amount(MIN_DEPOSIT))), MyProgramError::WriteOverflow);
}

#[test]
fn failed_transfer_leaves_the_balance() {
    let mut store = vault_with(4_000_000_000);
    let before = store.as_bytes().to_vec();
    let transfer = deposit(&depositor(), &store, &amount(2_000_000_000)).unwrap();
    assert_eq!(
        complete_deposit(&mut store, &transfer, ServiceReply::Refused),
        Err(MyProgramError::TransferFailed)
    );
    assert_eq!(store.as_bytes(), &before[..]);
    assert_eq!(store.load().unwrap().amount, 4_000_000_000);
}

#[test]
fn deposits_add_up() {
    let mut store = vault_with(0);
    for round in 1..=3u64 {
        let transfer = deposit(&depositor(), &store, &amount(2_000_000_000)).unwrap();
        assert_eq!(complete_deposit(&mut store, &transfer, ServiceReply::Done), Ok(()));
        assert_eq!(store.load().unwrap().amount, round * 2_000_000_000);
    }
}

#[test]
fn deposit_changes_only_the_balance() {
    let mut store = vault_with(1);
    let before = store.load().unwrap();
    let transfer = deposit(&depositor(), &store, &amount(MIN_DEPOSIT)).unwrap();
    complete_deposit(&mut store, &transfer, ServiceReply::Done).unwrap();
    let after = store.load().unwrap();
    assert_eq!(after.amount, MIN_DEPOSIT + 1);
    assert!(after.is_initialized());
    assert_eq!(after.user, before.user);
    assert_eq!(after.expiration, before.expiration);
    assert_eq!(after.sol_price_at_initialization, before.sol_price_at_initialization);
    assert_eq!(after.vault_bump, before.vault_bump);
    assert_eq!(after.state_bump, before.state_bump);
}

#[test]
fn settlement_checks_the_storage_again() {
    let transfer = Transfer { from: SOURCE, to: CUSTODY, authority: OWNER, amount: MIN_DEPOSIT };
    let mut missing = RecordStore::unallocated();
    assert_eq!(
        complete_deposit(&mut missing, &transfer, ServiceReply::Done),
        Err(MyProgramError::NotInitialized)
    );
    let mut odd = RecordStore::new(vec![1; 3]);
    assert_eq!(
        complete_deposit(&mut odd, &transfer, ServiceReply::Done),
        Err(MyProgramError::CorruptRecord)
    );
    assert_eq!(odd.as_bytes(), &[1u8; 3][..]);
    let mut full = vault_with(u64::MAX);
    assert_eq!(
        complete_deposit(&mut full, &transfer, ServiceReply::Done),
        Err(MyProgramError::WriteOverflow)
    );
    assert_eq!(full.load().unwrap().amount, u64::MAX);
}

#[test]
fn vault_is_created_and_then_funded() {
    let config = VaultConfig::standard();
    let creator = InitializeAccounts {
        user: OWNER,
        user_is_signer: true,
        vault_state: RECORD_ADDRESS,
        vault_owner: RECORD_ADDRESS,
    };
    let update = PriceUpdate {
        write_authority: [0; 32],
        verification_level: VerificationLevel::Full,
        feed_id: feed_id_from_symbol(SOL_ID).unwrap(),
        price: 15_000_00000000,
        conf: 0,
        exponent: -8,
        publish_time: START,
        prev_publish_time: START,
        ema_price: 15_000_00000000,
        ema_conf: 0,
        posted_slot: 0,
    };
    let data = InitializeIxData { amount: 0, lock_duration: 2_592_000, bump: 255 }.to_bytes();
    let mut store = RecordStore::unallocated();

    let vault = process_initialize(&config, &creator, &store, &data, &update, START).unwrap();
    assert_eq!(complete_initialize(&mut store, &vault, ServiceReply::Done), Ok(()));
    let created = store.load().unwrap();
    assert!(created.is_initialized());
    assert_eq!(created.user, OWNER);
    assert_eq!(created.expiration, START + 2_592_000);
    assert_eq!(created.sol_price_at_initialization, 1_500_000_000_000);
    assert_eq!(created.amount, 0);

    let transfer = process_deposit(&config, &depositor(), &store, &amount(1_000_000_000)).unwrap();
    assert_eq!(transfer.amount, 1_000_000_000);
    assert_eq!(transfer.from, SOURCE);
    assert_eq!(transfer.to, CUSTODY);
    assert_eq!(transfer.authority, OWNER);
    assert_eq!(complete_deposit(&mut store, &transfer, ServiceReply::Done), Ok(()));
    let funded = store.load().unwrap();
    assert_eq!(funded.amount, 1_000_000_000);
    assert_eq!(funded.expiration, START + 2_592_000);
    assert_eq!(funded.sol_price_at_initialization, 1_500_000_000_000);
}
