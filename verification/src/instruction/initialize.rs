//! `Initialize`: creating a vault.
//!
//! The operation runs in two steps around the one thing that only the host
//! can do. `process_initialize` checks everything and says what storage to
//! allocate and what record to put there; the host allocates;
//! `complete_initialize` takes the host's reply and fills the storage.

use crate::constants::VaultConfig;
use crate::constants::VAULT_STATE_SEED;
use crate::error::MyProgramError;
use crate::instruction::payload::InitializeIxData;
use crate::layout::same_key;
use crate::oracle::feed_id_from_symbol;
use crate::oracle::feed_id_of_symbol;
use crate::oracle::PriceUpdate;
use crate::oracle::VerificationLevel;
use crate::state::vault_state::VaultState;
use crate::store::RecordStore;
use crate::store::ServiceReply;
use pinocchio::pubkey::Pubkey;
use vstd::prelude::*;

verus! {

/// The participants of `Initialize`, as the host resolved them.
#[derive(Clone, Copy, Debug)]
pub struct InitializeAccounts {
    /// Who creates the vault, and pays for its storage.
    pub user: Pubkey,
    /// Whether `user` authorized the operation.
    pub user_is_signer: bool,
    /// Address of the vault's record.
    pub vault_state: Pubkey,
    /// Owner that the custody account records.
    pub vault_owner: Pubkey,
}

/// What a record's address is derived from: a domain tag, the owner's
/// identity and a disambiguator.
#[derive(Clone, Copy, Debug)]
pub struct AddressSeeds {
    pub domain: [u8; 11],
    pub owner: Pubkey,
    pub bump: u8,
}

impl AddressSeeds {
    /// The seeds of the vault record of `owner`.
    pub open spec fn spec_vault_state(owner: Pubkey, bump: u8) -> AddressSeeds {
        AddressSeeds { domain: VAULT_STATE_SEED, owner, bump }
    }

    /// The seeds of the vault record of `owner`.
    #[verifier::when_used_as_spec(spec_vault_state)]
    pub fn vault_state(owner: Pubkey, bump: u8) -> (seeds: AddressSeeds)
        ensures
            seeds == Self::spec_vault_state(owner, bump),
    {
        AddressSeeds { domain: VAULT_STATE_SEED, owner, bump }
    }
}

/// A request to the host to allocate storage.
#[derive(Clone, Copy, Debug)]
pub struct Allocation {
    /// Where to allocate; the host checks that `seeds` derive this address.
    pub address: Pubkey,
    /// Who pays for the storage.
    pub funder: Pubkey,
    /// How many bytes to allocate.
    pub size: usize,
    pub seeds: AddressSeeds,
}

/// A vault that passed every check and waits for its storage.
#[derive(Clone, Copy, Debug)]
pub struct NewVault {
    pub allocation: Allocation,
    /// The record to put into the storage once it is there.
    pub record: VaultState,
}

/// The price that a new vault is stamped with: the oracle's quote for the
/// configured feed, if the symbol decodes, the quote is accepted and its
/// price is not negative.
pub open spec fn price_at_initialization(config: VaultConfig, update: PriceUpdate, now: i64) -> Result<
    u64,
    MyProgramError,
> {
    match feed_id_of_symbol(config.feed_symbol@) {
        None => Err(MyProgramError::InvalidFeedIdentifier),
        Some(feed_id) => match update.read(now, config.max_quote_age, feed_id) {
            Err(e) => Err(MyProgramError::spec_from_oracle(e)),
            Ok(quote) => if quote.price < 0 {
                Err(MyProgramError::InvalidPriceConversion)
            } else {
                Ok(quote.price as u64)
            },
        },
    }
}

/// Reads the price to stamp a new vault with.
pub fn snapshot_price(config: &VaultConfig, update: &PriceUpdate, now: i64) -> (price: Result<
    u64,
    MyProgramError,
>)
    ensures
        price == price_at_initialization(*config, *update, now),
{
    let feed_id = match feed_id_from_symbol(config.feed_symbol) {
        Ok(id) => id,
        Err(_) => {
            return Err(MyProgramError::InvalidFeedIdentifier);
        },
    };
    match update.get_price_no_older_than(now, config.max_quote_age, &feed_id) {
        Err(e) => Err(MyProgramError::from_oracle(e)),
        Ok(quote) => if quote.price < 0 {
            Err(MyProgramError::InvalidPriceConversion)
        } else {
            Ok(quote.price as u64)
        },
    }
}

/// The vault that `Initialize` creates for checked inputs: storage of a
/// record's size at the record's address, paid by the caller and derived
/// from the caller's identity, and a record owned by the caller, locked
/// until `expiration`, empty, stamped with `price`.
pub open spec fn new_vault(
    accounts: InitializeAccounts,
    payload: InitializeIxData,
    expiration: i64,
    price: u64,
) -> NewVault {
    NewVault {
        allocation: Allocation {
            address: accounts.vault_state,
            funder: accounts.user,
            size: VaultState::LEN,
            seeds: AddressSeeds::spec_vault_state(accounts.user, payload.bump),
        },
        record: VaultState {
            is_initialized: true,
            user: accounts.user,
            expiration,
            amount: 0,
            sol_price_at_initialization: price,
            vault_bump: payload.bump,
            state_bump: payload.bump,
        },
    }
}

/// What `Initialize` decides, the checks in the order in which they fail:
/// the caller's authorization, the address being free, the custody account
/// belonging to the record, the payload's layout, the lock's floor, the
/// oracle's price, and the lock's end fitting its field.
pub open spec fn initialize_outcome(
    config: VaultConfig,
    accounts: InitializeAccounts,
    stored: Seq<u8>,
    data: Seq<u8>,
    update: PriceUpdate,
    now: i64,
) -> Result<NewVault, MyProgramError> {
    if !accounts.user_is_signer {
        Err(MyProgramError::MissingRequiredSignature)
    } else if RecordStore::occupied(stored) {
        Err(MyProgramError::AlreadyInitialized)
    } else if accounts.vault_owner@ != accounts.vault_state@ {
        Err(MyProgramError::OwnerMismatch)
    } else if !InitializeIxData::fits(data) {
        Err(MyProgramError::InvalidInstructionData)
    } else {
        let payload = InitializeIxData::decoding(data);
        if payload.lock_duration < config.min_lock_seconds {
            Err(MyProgramError::LockTooShort)
        } else {
            match price_at_initialization(config, update, now) {
                Err(e) => Err(e),
                Ok(price) => if i64::MIN <= now + payload.lock_duration <= i64::MAX {
                    Ok(new_vault(accounts, payload, (now + payload.lock_duration) as i64, price))
                } else {
                    Err(MyProgramError::WriteOverflow)
                },
            }
        }
    }
}

/// Checks a request to create a vault at time `now` and, if it passes, says
/// what to allocate and what record to store. Nothing is changed.
pub fn process_initialize(
    config: &VaultConfig,
    accounts: &InitializeAccounts,
    store: &RecordStore,
    data: &[u8],
    update: &PriceUpdate,
    now: i64,
) -> (vault: Result<NewVault, MyProgramError>)
    ensures
        vault == initialize_outcome(*config, *accounts, store@, data@, *update, now),
{
    if !accounts.user_is_signer {
        return Err(MyProgramError::MissingRequiredSignature);
    }
    if store.is_allocated() {
        return Err(MyProgramError::AlreadyInitialized);
    }
    if !same_key(&accounts.vault_owner, &accounts.vault_state) {
        return Err(MyProgramError::OwnerMismatch);
    }
    let payload = match InitializeIxData::from_bytes(data) {
        Ok(p) => p,
        Err(e) => {
            return Err(e);
        },
    };
    if payload.lock_duration < config.min_lock_seconds {
        return Err(MyProgramError::LockTooShort);
    }
    let price: u64 = match snapshot_price(config, update, now) {
        Ok(p) => p,
        Err(e) => {
            return Err(e);
        },
    };
    let end: i128 = now as i128 + payload.lock_duration as i128;
    if end < i64::MIN as i128 || end > i64::MAX as i128 {
        return Err(MyProgramError::WriteOverflow);
    }
    let mut record = VaultState::default();
    record.initialize(accounts.user, end as i64, 0, price, payload.bump, payload.bump);
    Ok(
        NewVault {
            allocation: Allocation {
                address: accounts.vault_state,
                funder: accounts.user,
                size: VaultState::LEN,
                seeds: AddressSeeds::vault_state(accounts.user, payload.bump),
            },
            record,
        },
    )
}

/// What becomes of the storage once the host has answered the request to
/// allocate: the new record's bytes, if the host allocated and the address
/// was free.
pub open spec fn initialize_settlement(stored: Seq<u8>, vault: NewVault, reply: ServiceReply) -> Result<
    Seq<u8>,
    MyProgramError,
> {
    if reply == ServiceReply::Done && !RecordStore::occupied(stored) && vault.allocation.size
        == VaultState::LEN {
        Ok(vault.record.encoding())
    } else {
        Err(MyProgramError::AllocationError)
    }
}

/// Finishes `Initialize` with the host's reply: on success the storage
/// holds the new record, on failure it is as it was.
pub fn complete_initialize(store: &mut RecordStore, vault: &NewVault, reply: ServiceReply) -> (done:
    Result<(), MyProgramError>)
    ensures
        match done {
            Ok(()) => initialize_settlement(old(store)@, *vault, reply) == Ok::<
                Seq<u8>,
                MyProgramError,
            >(final(store)@),
            Err(e) => initialize_settlement(old(store)@, *vault, reply) == Err::<
                Seq<u8>,
                MyProgramError,
            >(e) && final(store)@ == old(store)@,
        },
{
    match reply {
        ServiceReply::Refused => {
            return Err(MyProgramError::AllocationError);
        },
        ServiceReply::Done => {},
    }
    if vault.allocation.size != VaultState::LEN {
        return Err(MyProgramError::AllocationError);
    }
    match store.allocate(vault.allocation.size) {
        Ok(()) => {},
        Err(e) => {
            return Err(e);
        },
    }
    match store.save(&vault.record) {
        Ok(()) => Ok(()),
        Err(e) => Err(e),
    }
}

/// Whether everything that `Initialize` checks before it turns to the
/// oracle holds: the caller authorized, the address is free, the custody
/// account belongs to the record, the payload has its layout and the lock
/// reaches the floor.
pub open spec fn passes_early_checks(
    config: VaultConfig,
    accounts: InitializeAccounts,
    stored: Seq<u8>,
    data: Seq<u8>,
) -> bool {
    &&& accounts.user_is_signer
    &&& !RecordStore::occupied(stored)
    &&& accounts.vault_owner@ == accounts.vault_state@
    &&& InitializeIxData::fits(data)
    &&& InitializeIxData::decoding(data).lock_duration >= config.min_lock_seconds
}

/// A vault is initialized once: after an `Initialize` that went through, the
/// storage is occupied, and every later `Initialize` at that address that the
/// caller authorized fails with `AlreadyInitialized`, whatever else it is
/// asked with. Having failed, it hands out nothing to allocate or to store.
pub proof fn lemma_initialize_only_once(
    config: VaultConfig,
    accounts: InitializeAccounts,
    stored: Seq<u8>,
    data: Seq<u8>,
    update: PriceUpdate,
    now: i64,
    reply: ServiceReply,
    later_config: VaultConfig,
    later_accounts: InitializeAccounts,
    later_data: Seq<u8>,
    later_update: PriceUpdate,
    later_now: i64,
)
    requires
        initialize_outcome(config, accounts, stored, data, update, now) is Ok,
        initialize_settlement(
            stored,
            initialize_outcome(config, accounts, stored, data, update, now).unwrap(),
            reply,
        ) is Ok,
        later_accounts.user_is_signer,
    ensures
        initialize_outcome(
            later_config,
            later_accounts,
            initialize_settlement(
                stored,
                initialize_outcome(config, accounts, stored, data, update, now).unwrap(),
                reply,
            ).unwrap(),
            later_data,
            later_update,
            later_now,
        ) == Err::<NewVault, MyProgramError>(MyProgramError::AlreadyInitialized),
{
    let vault = initialize_outcome(config, accounts, stored, data, update, now).unwrap();
    vault.record.lemma_round_trip();
}

/// The storage that a completed `Initialize` leaves holds exactly the
/// record that was decided: owned by the caller, locked until the time of
/// the call plus the duration asked for, empty, and stamped with the
/// oracle's price.
pub proof fn lemma_initialize_stores_its_record(
    config: VaultConfig,
    accounts: InitializeAccounts,
    stored: Seq<u8>,
    data: Seq<u8>,
    update: PriceUpdate,
    now: i64,
    reply: ServiceReply,
)
    requires
        initialize_outcome(config, accounts, stored, data, update, now) is Ok,
        initialize_settlement(
            stored,
            initialize_outcome(config, accounts, stored, data, update, now).unwrap(),
            reply,
        ) is Ok,
    ensures
        ({
            let vault = initialize_outcome(config, accounts, stored, data, update, now).unwrap();
            let after = initialize_settlement(stored, vault, reply).unwrap();
            let record = VaultState::decoding(after);
            &&& VaultState::is_record(after)
            &&& record == vault.record
            &&& record.is_initialized
            &&& record.user == accounts.user
            &&& record.expiration == now + InitializeIxData::decoding(data).lock_duration
            &&& record.amount == 0
            &&& price_at_initialization(config, update, now) == Ok::<u64, MyProgramError>(
                record.sol_price_at_initialization,
            )
            &&& record.sol_price_at_initialization == update.price
        }),
{
    let vault = initialize_outcome(config, accounts, stored, data, update, now).unwrap();
    vault.record.lemma_round_trip();
}

/// The lock's floor is enforced: no vault is created with a lock shorter
/// than the configured minimum, and a request that fails on nothing earlier
/// fails with `LockTooShort`. A lock of exactly the minimum is not refused
/// for its length.
pub proof fn lemma_lock_floor(
    config: VaultConfig,
    accounts: InitializeAccounts,
    stored: Seq<u8>,
    data: Seq<u8>,
    update: PriceUpdate,
    now: i64,
)
    requires
        InitializeIxData::fits(data),
    ensures
        InitializeIxData::decoding(data).lock_duration < config.min_lock_seconds ==> initialize_outcome(
            config,
            accounts,
            stored,
            data,
            update,
            now,
        ) is Err,
        InitializeIxData::decoding(data).lock_duration < config.min_lock_seconds
            && accounts.user_is_signer && !RecordStore::occupied(stored) && accounts.vault_owner@
            == accounts.vault_state@ ==> initialize_outcome(
            config,
            accounts,
            stored,
            data,
            update,
            now,
        ) == Err::<NewVault, MyProgramError>(MyProgramError::LockTooShort),
        InitializeIxData::decoding(data).lock_duration >= config.min_lock_seconds ==> initialize_outcome(
            config,
            accounts,
            stored,
            data,
            update,
            now,
        ) != Err::<NewVault, MyProgramError>(MyProgramError::LockTooShort),
{
}

/// A negative price creates nothing: whenever the oracle's update carries a
/// price below zero, `Initialize` fails, so nothing is handed out to
/// allocate; and where the request passes every earlier check and the update
/// is accepted, the failure is `InvalidPriceConversion`.
pub proof fn lemma_negative_price_is_refused(
    config: VaultConfig,
    accounts: InitializeAccounts,
    stored: Seq<u8>,
    data: Seq<u8>,
    update: PriceUpdate,
    now: i64,
)
    requires
        update.price < 0,
    ensures
        initialize_outcome(config, accounts, stored, data, update, now) is Err,
        passes_early_checks(config, accounts, stored, data) && feed_id_of_symbol(
            config.feed_symbol@,
        ) is Some && update.read(
            now,
            config.max_quote_age,
            feed_id_of_symbol(config.feed_symbol@).unwrap(),
        ) is Ok ==> initialize_outcome(config, accounts, stored, data, update, now) == Err::<
            NewVault,
            MyProgramError,
        >(MyProgramError::InvalidPriceConversion),
{
}

/// A stale quote is refused: where the request passes every earlier check
/// and the update is fully verified and of the configured feed, `Initialize`
/// fails with `StalePrice` if the update is older than the configured age at
/// the time of the call, and does not fail so if its age is at most that.
pub proof fn lemma_stale_price_is_refused(
    config: VaultConfig,
    accounts: InitializeAccounts,
    stored: Seq<u8>,
    data: Seq<u8>,
    update: PriceUpdate,
    now: i64,
)
    requires
        passes_early_checks(config, accounts, stored, data),
        update.verification_level == VerificationLevel::Full,
        feed_id_of_symbol(config.feed_symbol@) == Some(update.feed_id@),
    ensures
        now - update.publish_time > config.max_quote_age ==> initialize_outcome(
            config,
            accounts,
            stored,
            data,
            update,
            now,
        ) == Err::<NewVault, MyProgramError>(MyProgramError::StalePrice),
        now - update.publish_time <= config.max_quote_age ==> initialize_outcome(
            config,
            accounts,
            stored,
            data,
            update,
            now,
        ) != Err::<NewVault, MyProgramError>(MyProgramError::StalePrice),
{
}

} // verus!
