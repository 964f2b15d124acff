//! What the service costs an agent.

use crate::error::CustomError;
use crate::state::{Agent, GlobalConfig};
use vstd::prelude::*;

verus! {

/// Whether an agent of this reputation pays the discounted price.
pub open spec fn discount_applies(reputation: u64, config: GlobalConfig) -> bool {
    reputation >= config.discount_threshold
}

/// The base price less the discount, rounded down to a whole unit.
/// Meaningful for a discount of at most one hundred percent.
pub open spec fn discounted_price(config: GlobalConfig) -> int {
    config.base_price * (100 - config.discount_percent) / 100
}

/// Whether the discounted price can be computed in 64 bits: the discount is a
/// percentage and the product formed on the way fits.
pub open spec fn discount_computable(config: GlobalConfig) -> bool {
    config.discount_percent <= 100 && config.base_price * (100 - config.discount_percent)
        <= u64::MAX
}

/// What [`get_price`] answers: the first check that fails, in the order
/// activity, eligibility, arithmetic, or else the price.
pub open spec fn get_price_verdict(agent: Agent, config: GlobalConfig) -> Result<u64, CustomError> {
    if !agent.is_active {
        Err(CustomError::AgentInactive)
    } else if agent.reputation < config.min_reputation {
        Err(CustomError::LowReputation)
    } else if !discount_applies(agent.reputation, config) {
        Ok(config.base_price)
    } else if !discount_computable(config) {
        Err(CustomError::ArithmeticOverflow)
    } else {
        Ok(discounted_price(config) as u64)
    }
}

/// The price that `agent` pays under `config`. Reads both and changes neither.
pub fn get_price(agent: &Agent, config: &GlobalConfig) -> (quote: Result<u64, CustomError>)
    ensures
        quote == get_price_verdict(*agent, *config),
{
    if !agent.is_active {
        return Err(CustomError::AgentInactive);
    }
    if agent.reputation < config.min_reputation {
        return Err(CustomError::LowReputation);
    }
    if agent.reputation < config.discount_threshold {
        return Ok(config.base_price);
    }
    if config.discount_percent > 100 {
        return Err(CustomError::ArithmeticOverflow);
    }
    let kept: u64 = 100 - config.discount_percent as u64;
    match config.base_price.checked_mul(kept) {
        Some(scaled) => Ok(scaled / 100),
        None => Err(CustomError::ArithmeticOverflow),
    }
}

} // verus!
