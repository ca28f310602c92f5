use timelock_vault::error::MyProgramError;
use timelock_vault::state::rewards_config::RewardsConfig;
use timelock_vault::state::vault_state::VaultState;

fn sample() -> VaultState {
    let mut record = VaultState::default();
    record.initialize([0x11; 32], 1_702_592_000, 5_000_000_000, 1_500_000_000_000, 254, 253);
    record
}

fn sample_bytes() -> Vec<u8> {
    let mut bytes = vec![1u8];
    bytes.extend_from_slice(&[0x11; 32]);
    bytes.extend_from_slice(&[0; 7]);
    bytes.extend_from_slice(&1_702_592_000i64.to_le_bytes());
    bytes.extend_from_slice(&5_000_000_000u64.to_le_bytes());
    bytes.extend_from_slice(&1_500_000_000_000u64.to_le_bytes());
    bytes.extend_from_slice(&[254, 253]);
    bytes.extend_from_slice(&[0; 6]);
    bytes
}

#[test]
fn fresh_vault_record_is_blank() {
    let record = VaultState::default();
    assert!(!record.is_initialized());
    assert_eq!(record.user, [0; 32]);
    assert_eq!(record.expiration, 0);
    assert_eq!(record.amount, 0);
    assert_eq!(record.sol_price_at_initialization, 0);
    assert_eq!(record.vault_bump, 0);
    assert_eq!(record.state_bump, 0);
}

#[test]
fn initialize_fills_every_field() {
    let record = sample();
    assert!(record.is_initialized());
    assert!(record.is_initialized);
    assert_eq!(record.user, [0x11; 32]);
    assert_eq!(record.expiration, 1_702_592_000);
    assert_eq!(record.amount, 5_000_000_000);
    assert_eq!(record.sol_price_at_initialization, 1_500_000_000_000);
    assert_eq!(record.vault_bump, 254);
    assert_eq!(record.state_bump, 253);
}

#[test]
fn vault_record_has_its_layout() {
    assert_eq!(VaultState::LEN, 72);
    assert_eq!(sample().to_bytes(), sample_bytes());
    assert_eq!(VaultState::default().to_bytes(), vec![0u8; 72]);
}

#[test]
fn vault_record_is_read_back() {
    let read = VaultState::from_bytes(&sample_bytes()).unwrap();
    assert_eq!(read.to_bytes(), sample_bytes());
    assert!(read.is_initialized);
    assert_eq!(read.user, [0x11; 32]);
    assert_eq!(read.expiration, 1_702_592_000);
    assert_eq!(read.amount, 5_000_000_000);
    assert_eq!(read.sol_price_at_initialization, 1_500_000_000_000);
    assert_eq!(read.vault_bump, 254);
    assert_eq!(read.state_bump, 253);
}

#[test]
fn negative_lock_end_is_read_back() {
    let mut record = VaultState::default();
    record.initialize([1; 32], -5, u64::MAX, u64::MAX, 0, 255);
    let read = VaultState::from_bytes(&record.to_bytes()).unwrap();
    assert_eq!(read.expiration, -5);
    assert_eq!(read.amount, u64::MAX);
    assert_eq!(read.sol_price_at_initialization, u64::MAX);
    assert_eq!(read.state_bump, 255);
}

#[test]
fn blank_storage_reads_as_a_blank_record() {
    let read = VaultState::from_bytes(&[0u8; 72]).unwrap();
    assert!(!read.is_initialized());
    assert_eq!(read.amount, 0);
}

#[test]
fn gaps_of_the_layout_are_not_read() {
    let mut bytes = sample_bytes();
    for gap in (33..40).chain(66..72) {
        bytes[gap] = 0xee;
    }
    let read = VaultState::from_bytes(&bytes).unwrap();
    assert_eq!(read.to_bytes(), sample_bytes());
}

#[test]
fn record_of_wrong_size_is_corrupt() {
    assert_eq!(VaultState::from_bytes(&[]).unwrap_err(), MyProgramError::CorruptRecord);
    assert_eq!(VaultState::from_bytes(&[1u8; 71]).unwrap_err(), MyProgramError::CorruptRecord);
    assert_eq!(VaultState::from_bytes(&[1u8; 73]).unwrap_err(), MyProgramError::CorruptRecord);
}

#[test]
fn record_with_unknown_tag_is_corrupt() {
    let mut bytes = sample_bytes();
    bytes[0] = 2;
    assert_eq!(VaultState::from_bytes(&bytes).unwrap_err(), MyProgramError::CorruptRecord);
    bytes[0] = 0xff;
    assert_eq!(VaultState::from_bytes(&bytes).unwrap_err(), MyProgramError::CorruptRecord);
}

#[test]
fn rewards_config_starts_blank() {
    let config = RewardsConfig::default();
    assert_eq!(config, RewardsConfig { is_initialized: false, rewards_bump: 0, bump: 0 });
    assert!(!config.is_initialized());
    assert_eq!(RewardsConfig::LEN, 3);
}

#[test]
fn rewards_config_records_both_bumps() {
    let mut config = RewardsConfig::default();
    config.initialize(251, 249);
    assert_eq!(config, RewardsConfig { is_initialized: false, rewards_bump: 251, bump: 249 });
    let mut marked = RewardsConfig { is_initialized: true, rewards_bump: 1, bump: 2 };
    marked.initialize(3, 4);
    assert_eq!(marked, RewardsConfig { is_initialized: true, rewards_bump: 3, bump: 4 });
    assert!(marked.is_initialized());
}
