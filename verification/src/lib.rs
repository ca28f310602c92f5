//! State transitions of a time-locked value vault.
//!
//! A vault is created once, with a lock that cannot be shortened and a price
//! snapshot taken from an oracle at that moment, and afterwards only grows by
//! deposits of its owner. The library decides; the host allocates storage and
//! moves value, and reports back how that went.

pub mod constants;
pub mod error;
pub mod instruction;
pub mod layout;
pub mod oracle;
pub mod state;
pub mod store;
