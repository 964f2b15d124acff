//! An agent's life: registered active, then inactive and active in turn, at
//! its owner's word.

use crate::error::CustomError;
use crate::identity::{authorization, authorize};
use crate::state::Agent;
use anchor_lang::prelude::Pubkey;
use vstd::prelude::*;

verus! {

/// The agent that registration creates for `user`.
pub open spec fn registered_agent(user: Pubkey) -> Agent {
    Agent { agent_pubkey: user, is_active: true, reputation: 0 }
}

/// Creates the caller's agent: active, with no reputation yet. That the
/// caller has none so far is the host's to ensure.
pub fn register_agent(user: Pubkey) -> (agent: Agent)
    ensures
        agent == registered_agent(user),
{
    Agent { agent_pubkey: user, is_active: true, reputation: 0 }
}

/// What [`deactivate_agent`] answers: ownership is checked before the state.
pub open spec fn deactivate_agent_verdict(agent: Agent, user: Pubkey) -> Result<(), CustomError> {
    if authorization(user, agent.agent_pubkey) is Err {
        Err(CustomError::Unauthorized)
    } else if !agent.is_active {
        Err(CustomError::AlreadyInactive)
    } else {
        Ok(())
    }
}

/// The agent as [`deactivate_agent`] leaves it.
pub open spec fn after_deactivate_agent(agent: Agent, user: Pubkey) -> Agent {
    if deactivate_agent_verdict(agent, user) is Ok {
        Agent { is_active: false, ..agent }
    } else {
        agent
    }
}

/// Takes an active agent out of service, on its owner's word.
pub fn deactivate_agent(agent: &mut Agent, user: &Pubkey) -> (verdict: Result<(), CustomError>)
    ensures
        verdict == deactivate_agent_verdict(*old(agent), *user),
        *final(agent) == after_deactivate_agent(*old(agent), *user),
{
    authorize(user, &agent.agent_pubkey)?;
    if !agent.is_active {
        return Err(CustomError::AlreadyInactive);
    }
    agent.is_active = false;
    Ok(())
}

/// What [`reactivate_agent`] answers: ownership is checked before the state.
pub open spec fn reactivate_agent_verdict(agent: Agent, user: Pubkey) -> Result<(), CustomError> {
    if authorization(user, agent.agent_pubkey) is Err {
        Err(CustomError::Unauthorized)
    } else if agent.is_active {
        Err(CustomError::AlreadyActive)
    } else {
        Ok(())
    }
}

/// The agent as [`reactivate_agent`] leaves it.
pub open spec fn after_reactivate_agent(agent: Agent, user: Pubkey) -> Agent {
    if reactivate_agent_verdict(agent, user) is Ok {
        Agent { is_active: true, ..agent }
    } else {
        agent
    }
}

/// Puts an inactive agent back into service, on its owner's word.
pub fn reactivate_agent(agent: &mut Agent, user: &Pubkey) -> (verdict: Result<(), CustomError>)
    ensures
        verdict == reactivate_agent_verdict(*old(agent), *user),
        *final(agent) == after_reactivate_agent(*old(agent), *user),
{
    authorize(user, &agent.agent_pubkey)?;
    if agent.is_active {
        return Err(CustomError::AlreadyActive);
    }
    agent.is_active = true;
    Ok(())
}

} // verus!
