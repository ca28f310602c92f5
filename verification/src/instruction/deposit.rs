//! `Deposit`: moving value into a vault's custody.
//!
//! The operation runs in two steps around the one thing that only the host
//! can do. `process_deposit` checks everything and says what to transfer; the
//! host transfers; `complete_deposit` takes the host's reply and credits the
//! record. A transfer that failed credits nothing.

use crate::constants::VaultConfig;
use crate::error::MyProgramError;
use crate::instruction::initialize::initialize_settlement;
use crate::instruction::initialize::NewVault;
use crate::instruction::payload::DepositIxData;
use crate::layout::same_key;
use crate::state::vault_state::VaultState;
use crate::store::RecordStore;
use crate::store::ServiceReply;
use pinocchio::pubkey::Pubkey;
use vstd::prelude::*;

verus! {

/// The participants of `Deposit`, as the host resolved them.
#[derive(Clone, Copy, Debug)]
pub struct DepositAccounts {
    /// Who deposits.
    pub user: Pubkey,
    /// The account that the value leaves.
    pub user_ata: Pubkey,
    /// Address of the vault's record.
    pub vault_state: Pubkey,
    /// The custody account, which the value enters.
    pub vault: Pubkey,
    /// Owner that the custody account records.
    pub vault_owner: Pubkey,
}

/// A request to the host to move value.
#[derive(Clone, Copy, Debug)]
pub struct Transfer {
    pub from: Pubkey,
    pub to: Pubkey,
    /// Who authorizes the movement.
    pub authority: Pubkey,
    pub amount: u64,
}

/// Whether `stored` holds an initialized record, and if not, why a deposit
/// into it fails.
pub open spec fn initialized_record(stored: Seq<u8>) -> Result<VaultState, MyProgramError> {
    if !RecordStore::occupied(stored) {
        Err(MyProgramError::NotInitialized)
    } else if !VaultState::is_record(stored) {
        Err(MyProgramError::CorruptRecord)
    } else if !VaultState::decoding(stored).is_initialized {
        Err(MyProgramError::NotInitialized)
    } else {
        Ok(VaultState::decoding(stored))
    }
}

/// Reads the record of an initialized vault.
pub fn load_initialized(store: &RecordStore) -> (record: Result<VaultState, MyProgramError>)
    ensures
        record == initialized_record(store@),
{
    let record = match store.load() {
        Ok(r) => r,
        Err(e) => {
            return Err(e);
        },
    };
    if !record.is_initialized() {
        return Err(MyProgramError::NotInitialized);
    }
    Ok(record)
}

/// What `Deposit` decides, the checks in the order in which they fail: the
/// payload's layout, the record being there and initialized, the deposit's
/// floor, the caller owning the vault, the custody account belonging to the
/// record, and the new balance fitting its field.
pub open spec fn deposit_outcome(
    config: VaultConfig,
    accounts: DepositAccounts,
    stored: Seq<u8>,
    data: Seq<u8>,
) -> Result<Transfer, MyProgramError> {
    if !DepositIxData::fits(data) {
        Err(MyProgramError::InvalidInstructionData)
    } else {
        let amount = DepositIxData::decoding(data).amount;
        match initialized_record(stored) {
            Err(e) => Err(e),
            Ok(record) => if amount < config.min_deposit {
                Err(MyProgramError::DepositTooSmall)
            } else if record.user@ != accounts.user@ {
                Err(MyProgramError::OwnerMismatch)
            } else if accounts.vault_owner@ != accounts.vault_state@ {
                Err(MyProgramError::OwnerMismatch)
            } else if record.amount + amount > u64::MAX {
                Err(MyProgramError::WriteOverflow)
            } else {
                Ok(
                    Transfer {
                        from: accounts.user_ata,
                        to: accounts.vault,
                        authority: accounts.user,
                        amount,
                    },
                )
            },
        }
    }
}

/// Checks a request to deposit and, if it passes, says what to transfer.
/// Nothing is changed.
pub fn process_deposit(
    config: &VaultConfig,
    accounts: &DepositAccounts,
    store: &RecordStore,
    data: &[u8],
) -> (transfer: Result<Transfer, MyProgramError>)
    ensures
        transfer == deposit_outcome(*config, *accounts, store@, data@),
{
    let payload = match DepositIxData::from_bytes(data) {
        Ok(p) => p,
        Err(e) => {
            return Err(e);
        },
    };
    let record = match load_initialized(store) {
        Ok(r) => r,
        Err(e) => {
            return Err(e);
        },
    };
    if payload.amount < config.min_deposit {
        return Err(MyProgramError::DepositTooSmall);
    }
    if !same_key(&record.user, &accounts.user) {
        return Err(MyProgramError::OwnerMismatch);
    }
    if !same_key(&accounts.vault_owner, &accounts.vault_state) {
        return Err(MyProgramError::OwnerMismatch);
    }
    if payload.amount > u64::MAX - record.amount {
        return Err(MyProgramError::WriteOverflow);
    }
    Ok(
        Transfer {
            from: accounts.user_ata,
            to: accounts.vault,
            authority: accounts.user,
            amount: payload.amount,
        },
    )
}

/// The record after `amount` has been added to its balance; nothing else
/// differs.
pub open spec fn credited(record: VaultState, amount: u64) -> VaultState
    recommends
        record.amount + amount <= u64::MAX,
{
    VaultState { amount: (record.amount + amount) as u64, ..record }
}

/// What becomes of the storage once the host has answered the request to
/// transfer: the record with the amount credited, if the host moved the
/// value.
pub open spec fn deposit_settlement(stored: Seq<u8>, transfer: Transfer, reply: ServiceReply) -> Result<
    Seq<u8>,
    MyProgramError,
> {
    if reply != ServiceReply::Done {
        Err(MyProgramError::TransferFailed)
    } else {
        match initialized_record(stored) {
            Err(e) => Err(e),
            Ok(record) => if record.amount + transfer.amount > u64::MAX {
                Err(MyProgramError::WriteOverflow)
            } else {
                Ok(credited(record, transfer.amount).encoding())
            },
        }
    }
}

/// Finishes `Deposit` with the host's reply: on success the stored balance
/// has grown by the amount transferred, on failure the storage is as it was.
pub fn complete_deposit(store: &mut RecordStore, transfer: &Transfer, reply: ServiceReply) -> (done:
    Result<(), MyProgramError>)
    ensures
        match done {
            Ok(()) => deposit_settlement(old(store)@, *transfer, reply) == Ok::<
                Seq<u8>,
                MyProgramError,
            >(final(store)@),
            Err(e) => deposit_settlement(old(store)@, *transfer, reply) == Err::<
                Seq<u8>,
                MyProgramError,
            >(e) && final(store)@ == old(store)@,
        },
        reply == ServiceReply::Refused ==> done == Err::<(), MyProgramError>(
            MyProgramError::TransferFailed,
        ) && final(store)@ == old(store)@,
{
    match reply {
        ServiceReply::Refused => {
            return Err(MyProgramError::TransferFailed);
        },
        ServiceReply::Done => {},
    }
    let mut record = match load_initialized(store) {
        Ok(r) => r,
        Err(e) => {
            return Err(e);
        },
    };
    if transfer.amount > u64::MAX - record.amount {
        return Err(MyProgramError::WriteOverflow);
    }
    record.amount = record.amount + transfer.amount;
    match store.save(&record) {
        Ok(()) => Ok(()),
        Err(e) => Err(e),
    }
}

/// The deposit's floor is enforced: nothing below the configured minimum is
/// transferred, and a request with a well-formed payload for an initialized
/// vault fails with `DepositTooSmall`. An amount of exactly the minimum is
/// not refused for its size.
pub proof fn lemma_deposit_floor(
    config: VaultConfig,
    accounts: DepositAccounts,
    stored: Seq<u8>,
    data: Seq<u8>,
)
    requires
        DepositIxData::fits(data),
    ensures
        DepositIxData::decoding(data).amount < config.min_deposit ==> deposit_outcome(
            config,
            accounts,
            stored,
            data,
        ) is Err,
        DepositIxData::decoding(data).amount < config.min_deposit && initialized_record(stored) is Ok
            ==> deposit_outcome(config, accounts, stored, data) == Err::<Transfer, MyProgramError>(
            MyProgramError::DepositTooSmall,
        ),
        DepositIxData::decoding(data).amount >= config.min_deposit ==> deposit_outcome(
            config,
            accounts,
            stored,
            data,
        ) != Err::<Transfer, MyProgramError>(MyProgramError::DepositTooSmall),
{
}

/// Only the owner deposits: a caller other than the owner that the record
/// names gets no transfer, and where the payload is well formed, the vault
/// initialized and the amount at least the minimum, the failure is
/// `OwnerMismatch`.
pub proof fn lemma_only_owner_deposits(
    config: VaultConfig,
    accounts: DepositAccounts,
    stored: Seq<u8>,
    data: Seq<u8>,
)
    requires
        initialized_record(stored) is Ok ==> initialized_record(stored).unwrap().user@
            != accounts.user@,
    ensures
        deposit_outcome(config, accounts, stored, data) is Err,
        DepositIxData::fits(data) && initialized_record(stored) is Ok && DepositIxData::decoding(
            data,
        ).amount >= config.min_deposit ==> deposit_outcome(config, accounts, stored, data) == Err::<
            Transfer,
            MyProgramError,
        >(MyProgramError::OwnerMismatch),
{
}

/// A transfer that failed credits nothing: the settlement is
/// `TransferFailed`, whatever the storage holds.
pub proof fn lemma_failed_transfer_credits_nothing(stored: Seq<u8>, transfer: Transfer)
    ensures
        deposit_settlement(stored, transfer, ServiceReply::Refused) == Err::<
            Seq<u8>,
            MyProgramError,
        >(MyProgramError::TransferFailed),
{
}

/// A deposit changes the balance and nothing else: after a settled deposit
/// the storage holds the record that was there, still initialized, with the
/// same owner, lock, price and disambiguators, and a balance greater by the
/// amount transferred.
pub proof fn lemma_deposit_only_credits(stored: Seq<u8>, transfer: Transfer, reply: ServiceReply)
    requires
        deposit_settlement(stored, transfer, reply) is Ok,
    ensures
        ({
            let before = VaultState::decoding(stored);
            let after = VaultState::decoding(deposit_settlement(stored, transfer, reply).unwrap());
            &&& VaultState::is_record(deposit_settlement(stored, transfer, reply).unwrap())
            &&& after == credited(before, transfer.amount)
            &&& after.is_initialized
            &&& after.user == before.user
            &&& after.expiration == before.expiration
            &&& after.sol_price_at_initialization == before.sol_price_at_initialization
            &&& after.vault_bump == before.vault_bump
            &&& after.state_bump == before.state_bump
            &&& after.amount == before.amount + transfer.amount
        }),
{
    credited(VaultState::decoding(stored), transfer.amount).lemma_round_trip();
}

/// A deposit that was decided settles: if `Deposit` passed its checks and
/// the host moved the value, completing it on the same storage succeeds.
pub proof fn lemma_decided_deposit_settles(
    config: VaultConfig,
    accounts: DepositAccounts,
    stored: Seq<u8>,
    data: Seq<u8>,
)
    requires
        deposit_outcome(config, accounts, stored, data) is Ok,
    ensures
        deposit_settlement(
            stored,
            deposit_outcome(config, accounts, stored, data).unwrap(),
            ServiceReply::Done,
        ) is Ok,
{
}

/// The owner can fund a fresh vault: in the storage that a completed
/// `Initialize` left, a deposit of at least the minimum by the vault's
/// creator, into a custody account that belongs to the record, is decided
/// for exactly the amount asked, and once settled the balance is that
/// amount.
pub proof fn lemma_first_deposit(
    config: VaultConfig,
    vault: NewVault,
    reply: ServiceReply,
    accounts: DepositAccounts,
    data: Seq<u8>,
)
    requires
        vault.record.is_initialized,
        vault.record.amount == 0,
        initialize_settlement(Seq::<u8>::empty(), vault, reply) is Ok,
        DepositIxData::fits(data),
        DepositIxData::decoding(data).amount >= config.min_deposit,
        accounts.user@ == vault.record.user@,
        accounts.vault_owner@ == accounts.vault_state@,
    ensures
        ({
            let stored = initialize_settlement(Seq::<u8>::empty(), vault, reply).unwrap();
            let amount = DepositIxData::decoding(data).amount;
            let transfer = Transfer {
                from: accounts.user_ata,
                to: accounts.vault,
                authority: accounts.user,
                amount,
            };
            &&& deposit_outcome(config, accounts, stored, data) == Ok::<Transfer, MyProgramError>(
                transfer,
            )
            &&& deposit_settlement(stored, transfer, ServiceReply::Done) is Ok
            &&& VaultState::decoding(
                deposit_settlement(stored, transfer, ServiceReply::Done).unwrap(),
            ).amount == amount
        }),
{
    vault.record.lemma_round_trip();
    let stored = vault.record.encoding();
    credited(VaultState::decoding(stored), DepositIxData::decoding(data).amount).lemma_round_trip();
}

} // verus!
