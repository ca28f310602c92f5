//! The price oracle as the vault sees it: one posted update, read for one
//! feed with a bound on its age, and the feed's identifier, decoded from its
//! hexadecimal symbol.

use anchor_lang::prelude::Clock;
use pyth_solana_receiver_sdk::error::GetPriceError;
use pyth_solana_receiver_sdk::price_update::get_feed_id_from_hex;
use pyth_solana_receiver_sdk::price_update::Price;
use pyth_solana_receiver_sdk::price_update::PriceFeedMessage;
use pyth_solana_receiver_sdk::price_update::PriceUpdateV2;
use pyth_solana_receiver_sdk::price_update::VerificationLevel as PostedLevel;
use vstd::prelude::*;

verus! {

/// How far the signatures behind a posted update were checked.
#[derive(Clone, Copy, Debug, PartialEq, Eq, Structural)]
pub enum VerificationLevel {
    /// Only this many guardian signatures were checked.
    Partial { num_signatures: u8 },
    /// The full quorum of signatures was checked.
    Full,
}

/// What a posted price update holds, as plain values.
#[derive(Clone, Copy, Debug)]
pub struct PriceUpdate {
    pub write_authority: [u8; 32],
    pub verification_level: VerificationLevel,
    pub feed_id: [u8; 32],
    pub price: i64,
    pub conf: u64,
    pub exponent: i32,
    pub publish_time: i64,
    pub prev_publish_time: i64,
    pub ema_price: i64,
    pub ema_conf: u64,
    pub posted_slot: u64,
}

/// A price read from the oracle: `price * 10^exponent`, give or take `conf`,
/// observed at `publish_time`.
#[derive(Clone, Copy, Debug, PartialEq, Eq, Structural)]
pub struct PriceQuote {
    pub price: i64,
    pub conf: u64,
    pub exponent: i32,
    pub publish_time: i64,
}

/// Why the oracle gave no quote.
#[derive(Clone, Copy, Debug, PartialEq, Eq, Structural)]
pub enum OracleError {
    /// The update was observed longer ago than the allowed age.
    StaleQuote,
    /// The update is for another feed than the one asked for.
    FeedNotFound,
    /// The update is not fully verified.
    InsufficientVerification,
    /// The symbol does not decode to a 32-byte feed identifier.
    InvalidFeedIdentifier,
}

/// The value of a hexadecimal digit, of either case.
pub open spec fn hex_digit_value(c: char) -> Option<u8> {
    if '0' <= c <= '9' {
        Some((c as u8 - '0' as u8) as u8)
    } else if 'a' <= c <= 'f' {
        Some((c as u8 - 'a' as u8 + 10) as u8)
    } else if 'A' <= c <= 'F' {
        Some((c as u8 - 'A' as u8 + 10) as u8)
    } else {
        None
    }
}

/// Whether every character is a hexadecimal digit.
pub open spec fn all_hex_digits(digits: Seq<char>) -> bool {
    forall|i: int| 0 <= i < digits.len() ==> (#[trigger] hex_digit_value(digits[i])) is Some
}

/// The bytes that an even number of hexadecimal digits spell, two digits to
/// a byte, the high half first.
pub open spec fn hex_bytes(digits: Seq<char>) -> Seq<u8> {
    Seq::new(
        (digits.len() / 2) as nat,
        |i: int|
            (16 * hex_digit_value(digits[2 * i]).unwrap() + hex_digit_value(
                digits[2 * i + 1],
            ).unwrap()) as u8,
    )
}

/// The digits of a feed symbol: all of a symbol of 64 characters, and a
/// symbol of 66 characters without its first two (the `0x` prefix, which is
/// skipped unread).
pub open spec fn symbol_digits(symbol: Seq<char>) -> Option<Seq<char>> {
    if symbol.len() == 64 {
        Some(symbol)
    } else if symbol.len() == 66 {
        Some(symbol.skip(2))
    } else {
        None
    }
}

/// The feed identifier that a symbol stands for: the 32 bytes spelled by its
/// 64 hexadecimal digits. A symbol with a character outside ASCII, of another
/// length, or with another character among its digits stands for none.
pub open spec fn feed_id_of_symbol(symbol: Seq<char>) -> Option<Seq<u8>> {
    if !vstd::utf8::is_ascii_chars(symbol) {
        None
    } else {
        match symbol_digits(symbol) {
            Some(digits) => if all_hex_digits(digits) {
                Some(hex_bytes(digits))
            } else {
                None
            },
            None => None,
        }
    }
}

/// Calls `get_feed_id_from_hex` of the receiver SDK and drops the reason of
/// a refusal.
///
/// Taken on trust from the SDK's source and that of the `hex` crate under it:
/// an input of 64 bytes is decoded whole and one of 66 bytes from its third
/// byte on, each pair of digits giving one byte, high half first, in either
/// case; any other length and any other byte among the digits is refused.
/// The SDK slices the input at byte 2, which panics inside a character;
/// `requires` keeps to ASCII, where bytes and characters coincide.
#[verifier::external_body]
fn feed_id_from_ascii_hex(symbol: &str) -> (feed_id: Option<[u8; 32]>)
    requires
        symbol.is_ascii(),
    ensures
        match feed_id {
            Some(id) => feed_id_of_symbol(symbol@) == Some(id@),
            None => feed_id_of_symbol(symbol@) is None,
        },
{
    get_feed_id_from_hex(symbol).ok()
}

/// Decodes the symbol of a price feed into its 32-byte identifier.
pub fn feed_id_from_symbol(symbol: &str) -> (feed_id: Result<[u8; 32], OracleError>)
    ensures
        match feed_id {
            Ok(id) => feed_id_of_symbol(symbol@) == Some(id@),
            Err(e) => e == OracleError::InvalidFeedIdentifier && feed_id_of_symbol(symbol@) is None,
        },
{
    if !symbol.is_ascii() {
        return Err(OracleError::InvalidFeedIdentifier);
    }
    match feed_id_from_ascii_hex(symbol) {
        Some(id) => Ok(id),
        None => Err(OracleError::InvalidFeedIdentifier),
    }
}

impl PriceUpdate {
    /// The quote that this update carries.
    pub open spec fn quote(self) -> PriceQuote {
        PriceQuote {
            price: self.price,
            conf: self.conf,
            exponent: self.exponent,
            publish_time: self.publish_time,
        }
    }

    /// Whether the update is too old at time `now`: its age, `now` less the
    /// time of observation, is greater than `maximum_age`.
    pub open spec fn is_stale(self, now: i64, maximum_age: u64) -> bool {
        now - self.publish_time > maximum_age
    }

    /// What reading this update for `feed_id` at time `now` gives: a refusal
    /// if it is not fully verified, else if it is for another feed, else if it
    /// is too old; otherwise its quote.
    pub open spec fn read(self, now: i64, maximum_age: u64, feed_id: Seq<u8>) -> Result<
        PriceQuote,
        OracleError,
    > {
        if self.verification_level != VerificationLevel::Full {
            Err(OracleError::InsufficientVerification)
        } else if self.feed_id@ != feed_id {
            Err(OracleError::FeedNotFound)
        } else if self.is_stale(now, maximum_age) {
            Err(OracleError::StaleQuote)
        } else {
            Ok(self.quote())
        }
    }

    /// Reads the update for `feed_id`, accepting it only if it is fully
    /// verified and no older than `maximum_age` seconds at time `now`.
    pub fn get_price_no_older_than(&self, now: i64, maximum_age: u64, feed_id: &[u8; 32]) -> (quote:
        Result<PriceQuote, OracleError>)
        ensures
            quote == self.read(now, maximum_age, feed_id@),
    {
        if maximum_age <= i64::MAX as u64 {
            price_no_older_than(self, now, maximum_age, feed_id)
        } else {
            // An age beyond the signed range: the widest window that the
            // call takes settles all but staleness.
            match price_no_older_than(self, now, i64::MAX as u64, feed_id) {
                Err(OracleError::StaleQuote) => {
                    let age: i128 = now as i128 - self.publish_time as i128;
                    if age > maximum_age as i128 {
                        Err(OracleError::StaleQuote)
                    } else {
                        Ok(
                            PriceQuote {
                                price: self.price,
                                conf: self.conf,
                                exponent: self.exponent,
                                publish_time: self.publish_time,
                            },
                        )
                    }
                },
                other => other,
            }
        }
    }
}

/// Calls `PriceUpdateV2::get_price_no_older_than` of the receiver SDK on an
/// account that holds `update`, with a clock that reads `now`.
///
/// Taken on trust from the SDK's source: it refuses an update that is not
/// fully verified, then one of another feed, then one whose time of
/// observation plus `maximum_age` (saturating) lies before `now`; otherwise it
/// hands out price, confidence, exponent and time of observation unchanged.
/// The SDK converts `maximum_age` to a signed number and panics above
/// `i64::MAX`, which `requires` leaves out.
#[verifier::external_body]
fn price_no_older_than(update: &PriceUpdate, now: i64, maximum_age: u64, feed: &[u8; 32]) -> (quote:
    Result<PriceQuote, OracleError>)
    requires
        maximum_age <= i64::MAX,
    ensures
        quote == update.read(now, maximum_age, feed@),
{
    let PriceUpdate { write_authority, verification_level, feed_id, price, conf, exponent, publish_time, prev_publish_time, ema_price, ema_conf, posted_slot } = *update;
    let price_message = PriceFeedMessage { feed_id, price, conf, exponent, publish_time, prev_publish_time, ema_price, ema_conf };
    let verification_level = match verification_level {
        VerificationLevel::Full => PostedLevel::Full,
        VerificationLevel::Partial { num_signatures } => PostedLevel::Partial { num_signatures },
    };
    let account = PriceUpdateV2 { write_authority: write_authority.into(), verification_level, price_message, posted_slot };
    match account.get_price_no_older_than(&Clock { unix_timestamp: now, ..Default::default() }, maximum_age, feed) {
        Ok(Price { price, conf, exponent, publish_time }) => Ok(PriceQuote { price, conf, exponent, publish_time }),
        Err(GetPriceError::PriceTooOld) => Err(OracleError::StaleQuote),
        Err(GetPriceError::MismatchedFeedId) => Err(OracleError::FeedNotFound),
        Err(_) => Err(OracleError::InsufficientVerification),
    }
}

} // verus!
