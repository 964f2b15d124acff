//! How an agent's reputation rises and falls.

use crate::error::CustomError;
use crate::identity::{authorization, authorize};
use crate::state::{Agent, GlobalConfig};
use anchor_lang::prelude::Pubkey;
use vstd::prelude::*;

verus! {

/// Largest penalty a single call may take from an agent's reputation.
pub const MAX_PENALTY_PER_ACTION: u64 = 10;

/// What [`perform_action`] answers.
pub open spec fn perform_action_verdict(agent: Agent) -> Result<(), CustomError> {
    if !agent.is_active {
        Err(CustomError::AgentInactive)
    } else if agent.reputation == u64::MAX {
        Err(CustomError::ArithmeticOverflow)
    } else {
        Ok(())
    }
}

/// The agent as [`perform_action`] leaves it.
pub open spec fn after_perform_action(agent: Agent) -> Agent {
    if perform_action_verdict(agent) is Ok {
        Agent { reputation: (agent.reputation + 1) as u64, ..agent }
    } else {
        agent
    }
}

/// Records one action of an active agent: its reputation rises by one.
pub fn perform_action(agent: &mut Agent) -> (verdict: Result<(), CustomError>)
    ensures
        verdict == perform_action_verdict(*old(agent)),
        *final(agent) == after_perform_action(*old(agent)),
{
    if !agent.is_active {
        return Err(CustomError::AgentInactive);
    }
    match agent.reputation.checked_add(1) {
        Some(raised) => {
            agent.reputation = raised;
            Ok(())
        },
        None => Err(CustomError::ArithmeticOverflow),
    }
}

/// What [`penalize_agent`] answers: the first check that fails, in the order
/// authority, activity, reputation left, size of the penalty, penalty against
/// reputation.
pub open spec fn penalize_agent_verdict(
    agent: Agent,
    config: GlobalConfig,
    admin: Pubkey,
    penalty_amount: u64,
) -> Result<(), CustomError> {
    if authorization(admin, config.admin_pubkey) is Err {
        Err(CustomError::Unauthorized)
    } else if !agent.is_active {
        Err(CustomError::AgentInactive)
    } else if agent.reputation == 0 {
        Err(CustomError::AlreadyZero)
    } else if penalty_amount == 0 || penalty_amount > MAX_PENALTY_PER_ACTION {
        Err(CustomError::PenaltyTooLarge)
    } else if penalty_amount > agent.reputation {
        Err(CustomError::ChoosePenalty)
    } else {
        Ok(())
    }
}

/// The agent as [`penalize_agent`] leaves it.
pub open spec fn after_penalize_agent(
    agent: Agent,
    config: GlobalConfig,
    admin: Pubkey,
    penalty_amount: u64,
) -> Agent {
    if penalize_agent_verdict(agent, config, admin, penalty_amount) is Ok {
        Agent { reputation: (agent.reputation - penalty_amount) as u64, ..agent }
    } else {
        agent
    }
}

/// Takes `penalty_amount` from the reputation of an active agent, on the
/// admin's word.
pub fn penalize_agent(
    agent: &mut Agent,
    config: &GlobalConfig,
    admin: &Pubkey,
    penalty_amount: u64,
) -> (verdict: Result<(), CustomError>)
    ensures
        verdict == penalize_agent_verdict(*old(agent), *config, *admin, penalty_amount),
        *final(agent) == after_penalize_agent(*old(agent), *config, *admin, penalty_amount),
{
    authorize(admin, &config.admin_pubkey)?;
    if !agent.is_active {
        return Err(CustomError::AgentInactive);
    }
    if agent.reputation == 0 {
        return Err(CustomError::AlreadyZero);
    }
    if penalty_amount == 0 || penalty_amount > MAX_PENALTY_PER_ACTION {
        return Err(CustomError::PenaltyTooLarge);
    }
    match agent.reputation.checked_sub(penalty_amount) {
        Some(lowered) => {
            agent.reputation = lowered;
            Ok(())
        },
        None => Err(CustomError::ChoosePenalty),
    }
}

} // verus!
