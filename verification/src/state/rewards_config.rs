//! The record that holds the address disambiguators of the rewards accounts.

use vstd::prelude::*;

verus! {

/// Disambiguators for the derived addresses of the rewards accounts.
#[derive(Clone, Copy, Debug, PartialEq, Eq, Structural)]
pub struct RewardsConfig {
    pub is_initialized: bool,
    pub rewards_bump: u8,
    pub bump: u8,
}

impl RewardsConfig {
    /// Size of the record in storage, one byte to a field.
    pub const LEN: usize = 3;

    /// Whether the record has been marked as initialized.
    pub fn is_initialized(&self) -> (set: bool)
        ensures
            set == self.is_initialized,
    {
        self.is_initialized
    }

    /// Records the two disambiguators. The initialization mark is left as it
    /// is.
    pub fn initialize(&mut self, rewards_bump: u8, bump: u8)
        ensures
            *final(self) == (RewardsConfig {
                is_initialized: old(self).is_initialized,
                rewards_bump,
                bump,
            }),
    {
        self.rewards_bump = rewards_bump;
        self.bump = bump;
    }
}

impl Default for RewardsConfig {
    /// The record of fresh storage: unmarked, both disambiguators zero.
    fn default() -> (config: RewardsConfig)
        ensures
            config == (RewardsConfig { is_initialized: false, rewards_bump: 0, bump: 0 }),
    {
        RewardsConfig { is_initialized: false, rewards_bump: 0, bump: 0 }
    }
}

} // verus!
