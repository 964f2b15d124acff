//! The records the registry keeps.

use anchor_lang::prelude::Pubkey;
use vstd::prelude::*;

verus! {

/// A registered participant.
#[derive(Clone, Copy, Debug, PartialEq, Eq)]
pub struct Agent {
    /// The identity that owns the agent and alone may change its lifecycle state.
    pub agent_pubkey: Pubkey,
    /// Whether the agent may act and be served.
    pub is_active: bool,
    /// The score that actions raise and penalties lower.
    pub reputation: u64,
}

/// The one record of pricing and eligibility settings.
#[derive(Clone, Copy, Debug, PartialEq, Eq)]
pub struct GlobalConfig {
    /// The identity that may change the settings and penalize agents.
    pub admin_pubkey: Pubkey,
    /// The price without discount.
    pub base_price: u64,
    /// The reputation from which the discount applies.
    pub discount_threshold: u64,
    /// The discount, in percent of the base price.
    pub discount_percent: u8,
    /// The reputation below which an agent is not served.
    pub min_reputation: u64,
}

impl GlobalConfig {
    /// The discount is a percentage: at most one hundred.
    pub open spec fn well_formed(&self) -> bool {
        self.discount_percent <= 100
    }
}

/// The record that collects what agents pay. Its balance is kept by the host.
#[derive(Clone, Copy, Debug, PartialEq, Eq)]
pub struct Treasury {}

} // verus!
