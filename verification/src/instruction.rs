//! The two operations on a vault, and the payloads that ask for them.

pub mod deposit;
pub mod initialize;
pub mod payload;
