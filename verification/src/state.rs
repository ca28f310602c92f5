//! The records that the program keeps in storage.

pub mod rewards_config;
pub mod vault_state;
