//! The fixed rules of the vault, and the configuration that carries them
//! into each operation.

use crate::oracle::all_hex_digits;
use crate::oracle::feed_id_of_symbol;
use crate::oracle::hex_bytes;
use crate::oracle::symbol_digits;
use vstd::prelude::*;

verus! {

/// Shortest lock a vault may be created with, in seconds: thirty days.
pub const MIN_LOCK_SECONDS: i64 = 2_592_000;

/// Greatest age, in seconds, at which an oracle quote is still accepted.
pub const MAX_QUOTE_AGE: u64 = 30;

/// Base units in one whole unit of the native currency.
pub const LAMPORTS_PER_SOL: u64 = 1_000_000_000;

/// Smallest deposit: one whole unit of the native currency.
pub const MIN_DEPOSIT: u64 = LAMPORTS_PER_SOL;

/// Symbol of the reference asset's price feed: its identifier in
/// hexadecimal.
pub const SOL_ID: &'static str =
    "0xef0d8b6fda2ceba41da15d4095d1da392a0d2f8ed0c6c7bc0f4cfac8c280b56d";

/// Domain tag of a vault record's derived address: the text `vault_state`.
pub const VAULT_STATE_SEED: [u8; 11] = [118, 97, 117, 108, 116, 95, 115, 116, 97, 116, 101];

/// The rules that an operation is held to. The standard ones are the
/// constants of this module; a test may inject others.
#[derive(Clone, Copy, Debug)]
pub struct VaultConfig {
    pub min_lock_seconds: i64,
    pub max_quote_age: u64,
    pub min_deposit: u64,
    pub feed_symbol: &'static str,
}

impl VaultConfig {
    /// The standard rules.
    pub open spec fn spec_standard() -> VaultConfig {
        VaultConfig {
            min_lock_seconds: MIN_LOCK_SECONDS,
            max_quote_age: MAX_QUOTE_AGE,
            min_deposit: MIN_DEPOSIT,
            feed_symbol: SOL_ID,
        }
    }

    /// The standard rules.
    #[verifier::when_used_as_spec(spec_standard)]
    pub fn standard() -> (config: VaultConfig)
        ensures
            config == Self::spec_standard(),
    {
        VaultConfig {
            min_lock_seconds: MIN_LOCK_SECONDS,
            max_quote_age: MAX_QUOTE_AGE,
            min_deposit: MIN_DEPOSIT,
            feed_symbol: SOL_ID,
        }
    }
}

/// The feed identifier that the standard symbol spells.
pub open spec fn standard_feed_id() -> Seq<u8> {
    seq![
        0xef, 0x0d, 0x8b, 0x6f, 0xda, 0x2c, 0xeb, 0xa4, 0x1d, 0xa1, 0x5d, 0x40, 0x95, 0xd1, 0xda, 0x39,
        0x2a, 0x0d, 0x2f, 0x8e, 0xd0, 0xc6, 0xc7, 0xbc, 0x0f, 0x4c, 0xfa, 0xc8, 0xc2, 0x80, 0xb5, 0x6d,
    ]
}

/// The standard symbol decodes: under the standard rules no operation
/// fails for its feed identifier.
pub proof fn lemma_standard_symbol_decodes()
    ensures
        feed_id_of_symbol(SOL_ID@) == Some(standard_feed_id()),
{
    reveal_strlit("0xef0d8b6fda2ceba41da15d4095d1da392a0d2f8ed0c6c7bc0f4cfac8c280b56d");
    let symbol = SOL_ID@;
    assert(symbol.len() == 66);
    assert(vstd::utf8::is_ascii_chars(symbol));
    let digits = symbol.skip(2);
    assert(symbol_digits(symbol) == Some(digits));
    assert(all_hex_digits(digits));
    assert(hex_bytes(digits) =~= standard_feed_id());
}

} // verus!
