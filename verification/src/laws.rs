//! What holds of the registry's operations taken together.
//!
//! Each law is stated over the spec functions that the operations' own
//! contracts use, so it holds of every call that Verus has verified.

use crate::config::{after_update_pricing_config, initial_config, update_pricing_config_verdict};
use crate::error::CustomError;
use crate::lifecycle::{
    after_deactivate_agent, after_reactivate_agent, deactivate_agent_verdict,
    reactivate_agent_verdict, registered_agent,
};
use crate::payment::{
    after_perform_action_with_payment, perform_action_with_payment_verdict, PaymentAction,
    PaymentEvent,
};
use crate::pricing::get_price_verdict;
use crate::reputation::{
    after_penalize_agent, after_perform_action, penalize_agent_verdict, perform_action_verdict,
    MAX_PENALTY_PER_ACTION,
};
use crate::state::{Agent, GlobalConfig};
use anchor_lang::prelude::Pubkey;
use vstd::prelude::*;

verus! {

/// A request that is turned down leaves the record it was aimed at exactly
/// as it was.
pub proof fn rejection_changes_nothing(
    agent: Agent,
    config: GlobalConfig,
    caller: Pubkey,
    penalty_amount: u64,
    event: PaymentEvent,
    base_price: u64,
    discount_threshold: u64,
    discount_percent: u8,
    min_reputation: u64,
)
    ensures
        deactivate_agent_verdict(agent, caller) is Err ==> after_deactivate_agent(agent, caller)
            == agent,
        reactivate_agent_verdict(agent, caller) is Err ==> after_reactivate_agent(agent, caller)
            == agent,
        perform_action_verdict(agent) is Err ==> after_perform_action(agent) == agent,
        penalize_agent_verdict(agent, config, caller, penalty_amount) is Err
            ==> after_penalize_agent(agent, config, caller, penalty_amount) == agent,
        perform_action_with_payment_verdict(agent, config, event) is Err
            ==> after_perform_action_with_payment(agent, config, event) == agent,
        update_pricing_config_verdict(config, caller, discount_percent) is Err
            ==> after_update_pricing_config(
            config,
            caller,
            base_price,
            discount_threshold,
            discount_percent,
            min_reputation,
        ) == config,
{
}

/// Reputation starts at zero and moves only as documented: an action, paid or
/// not, that is accepted raises it by exactly one; an accepted penalty lowers
/// it by exactly the penalty, which is between one and the cap; everything
/// else leaves it alone. The sums are those of the integers: no result has
/// wrapped round, and none is below zero.
pub proof fn reputation_moves_by_documented_steps(
    agent: Agent,
    config: GlobalConfig,
    caller: Pubkey,
    penalty_amount: u64,
    event: PaymentEvent,
)
    ensures
        registered_agent(caller).reputation == 0,
        after_deactivate_agent(agent, caller).reputation == agent.reputation,
        after_reactivate_agent(agent, caller).reputation == agent.reputation,
        after_perform_action(agent).reputation == if perform_action_verdict(agent) is Ok {
            agent.reputation + 1
        } else {
            agent.reputation as int
        },
        after_penalize_agent(agent, config, caller, penalty_amount).reputation
            == if penalize_agent_verdict(agent, config, caller, penalty_amount) is Ok {
            agent.reputation - penalty_amount
        } else {
            agent.reputation as int
        },
        penalize_agent_verdict(agent, config, caller, penalty_amount) is Ok ==> 1 <= penalty_amount
            <= MAX_PENALTY_PER_ACTION && penalty_amount <= agent.reputation,
        after_perform_action_with_payment(agent, config, event).reputation
            == if perform_action_with_payment_verdict(agent, config, event) is Ok
            && event is TransferCompleted {
            agent.reputation + 1
        } else {
            agent.reputation as int
        },
{
}

/// No operation changes who owns an agent or who administers the settings.
pub proof fn identities_are_fixed(
    agent: Agent,
    config: GlobalConfig,
    caller: Pubkey,
    penalty_amount: u64,
    event: PaymentEvent,
    base_price: u64,
    discount_threshold: u64,
    discount_percent: u8,
    min_reputation: u64,
)
    ensures
        registered_agent(caller).agent_pubkey == caller,
        initial_config(caller).admin_pubkey == caller,
        after_deactivate_agent(agent, caller).agent_pubkey == agent.agent_pubkey,
        after_reactivate_agent(agent, caller).agent_pubkey == agent.agent_pubkey,
        after_perform_action(agent).agent_pubkey == agent.agent_pubkey,
        after_penalize_agent(agent, config, caller, penalty_amount).agent_pubkey
            == agent.agent_pubkey,
        after_perform_action_with_payment(agent, config, event).agent_pubkey
            == agent.agent_pubkey,
        after_update_pricing_config(
            config,
            caller,
            base_price,
            discount_threshold,
            discount_percent,
            min_reputation,
        ).admin_pubkey == config.admin_pubkey,
{
}

/// Who is not the owner cannot change an agent's activity, and who is not the
/// admin can neither penalize an agent nor change the settings.
pub proof fn strangers_change_nothing(
    agent: Agent,
    config: GlobalConfig,
    caller: Pubkey,
    penalty_amount: u64,
    base_price: u64,
    discount_threshold: u64,
    discount_percent: u8,
    min_reputation: u64,
)
    ensures
        caller != agent.agent_pubkey ==> {
            &&& deactivate_agent_verdict(agent, caller) == Err::<(), CustomError>(
                CustomError::Unauthorized,
            )
            &&& reactivate_agent_verdict(agent, caller) == Err::<(), CustomError>(
                CustomError::Unauthorized,
            )
            &&& after_deactivate_agent(agent, caller) == agent
            &&& after_reactivate_agent(agent, caller) == agent
        },
        caller != config.admin_pubkey ==> {
            &&& penalize_agent_verdict(agent, config, caller, penalty_amount) == Err::<
                (),
                CustomError,
            >(CustomError::Unauthorized)
            &&& update_pricing_config_verdict(config, caller, discount_percent) == Err::<
                (),
                CustomError,
            >(CustomError::Unauthorized)
            &&& after_penalize_agent(agent, config, caller, penalty_amount) == agent
            &&& after_update_pricing_config(
                config,
                caller,
                base_price,
                discount_threshold,
                discount_percent,
                min_reputation,
            ) == config
        },
{
}

/// An agent is registered active, and from then on is inactive and active in
/// turn: what has been deactivated cannot be deactivated again, and what has
/// been reactivated cannot be reactivated again.
pub proof fn activity_alternates(agent: Agent, user: Pubkey)
    ensures
        registered_agent(user).is_active,
        deactivate_agent_verdict(agent, user) is Ok ==> {
            &&& agent.is_active
            &&& !after_deactivate_agent(agent, user).is_active
            &&& deactivate_agent_verdict(after_deactivate_agent(agent, user), user) == Err::<
                (),
                CustomError,
            >(CustomError::AlreadyInactive)
        },
        reactivate_agent_verdict(agent, user) is Ok ==> {
            &&& !agent.is_active
            &&& after_reactivate_agent(agent, user).is_active
            &&& reactivate_agent_verdict(after_reactivate_agent(agent, user), user) == Err::<
                (),
                CustomError,
            >(CustomError::AlreadyActive)
        },
{
}

/// An owner who deactivates an agent and then reactivates it has the agent
/// back as it was: active, with its reputation.
pub proof fn deactivate_then_reactivate_restores(agent: Agent, user: Pubkey)
    requires
        deactivate_agent_verdict(agent, user) is Ok,
    ensures
        reactivate_agent_verdict(after_deactivate_agent(agent, user), user) is Ok,
        after_reactivate_agent(after_deactivate_agent(agent, user), user) == agent,
        agent.is_active,
{
}

/// A penalty of zero, one above the cap, or one above the agent's reputation
/// is turned down, whoever asks, and the agent keeps its reputation.
pub proof fn penalty_out_of_bounds_is_rejected(
    agent: Agent,
    config: GlobalConfig,
    admin: Pubkey,
    penalty_amount: u64,
)
    requires
        penalty_amount == 0 || penalty_amount > MAX_PENALTY_PER_ACTION || penalty_amount
            > agent.reputation,
    ensures
        penalize_agent_verdict(agent, config, admin, penalty_amount) is Err,
        after_penalize_agent(agent, config, admin, penalty_amount) == agent,
{
}

/// The price is a function of the agent's activity and reputation and of the
/// four pricing values, and of nothing else: asked again of the same state,
/// it is the same.
pub proof fn price_depends_on_state_alone(
    agent: Agent,
    config: GlobalConfig,
    agent_again: Agent,
    config_again: GlobalConfig,
)
    requires
        agent.is_active == agent_again.is_active,
        agent.reputation == agent_again.reputation,
        config.base_price == config_again.base_price,
        config.discount_threshold == config_again.discount_threshold,
        config.discount_percent == config_again.discount_percent,
        config.min_reputation == config_again.min_reputation,
    ensures
        get_price_verdict(agent, config) == get_price_verdict(agent_again, config_again),
{
}

/// A well-formed configuration never asks more than its base price.
pub proof fn price_is_at_most_base_price(agent: Agent, config: GlobalConfig)
    requires
        config.well_formed(),
    ensures
        get_price_verdict(agent, config) matches Ok(price) ==> price <= config.base_price,
{
    let base: int = config.base_price as int;
    let kept: int = 100 - config.discount_percent;
    assert(base * kept / 100 <= base) by (nonlinear_arith)
        requires
            0 <= base,
            0 <= kept <= 100,
    ;
}

/// The settings start well formed and every update, accepted or not, keeps
/// them so: the discount is a percentage at all times.
pub proof fn config_stays_well_formed(
    config: GlobalConfig,
    admin: Pubkey,
    base_price: u64,
    discount_threshold: u64,
    discount_percent: u8,
    min_reputation: u64,
)
    ensures
        initial_config(admin).well_formed(),
        config.well_formed() ==> after_update_pricing_config(
            config,
            admin,
            base_price,
            discount_threshold,
            discount_percent,
            min_reputation,
        ).well_formed(),
{
}

/// An update that asks for a discount above one hundred percent writes
/// nothing; from the admin it is answered with `InvalidDiscount`.
pub proof fn invalid_discount_changes_nothing(
    config: GlobalConfig,
    admin: Pubkey,
    base_price: u64,
    discount_threshold: u64,
    discount_percent: u8,
    min_reputation: u64,
)
    requires
        discount_percent > 100,
    ensures
        after_update_pricing_config(
            config,
            admin,
            base_price,
            discount_threshold,
            discount_percent,
            min_reputation,
        ) == config,
        update_pricing_config_verdict(config, admin, discount_percent) is Err,
        admin == config.admin_pubkey ==> update_pricing_config_verdict(
            config,
            admin,
            discount_percent,
        ) == Err::<(), CustomError>(CustomError::InvalidDiscount),
{
}

/// When the host reports that the transfer failed, the paid action is turned
/// down and the agent keeps its reputation.
pub proof fn failed_transfer_changes_nothing(agent: Agent, config: GlobalConfig)
    ensures
        perform_action_with_payment_verdict(agent, config, PaymentEvent::TransferFailed) is Err,
        after_perform_action_with_payment(agent, config, PaymentEvent::TransferFailed) == agent,
{
}

/// A transfer that the paid action has asked for can be committed: on the
/// same agent and settings, the report of its completion is accepted and
/// raises the reputation by one. No transfer is asked for that would have to
/// be undone.
pub proof fn requested_transfer_can_be_committed(agent: Agent, config: GlobalConfig)
    requires
        perform_action_with_payment_verdict(agent, config, PaymentEvent::Requested) is Ok,
    ensures
        perform_action_with_payment_verdict(agent, config, PaymentEvent::TransferCompleted) == Ok::<
            PaymentAction,
            CustomError,
        >(PaymentAction::Finished),
        after_perform_action_with_payment(agent, config, PaymentEvent::TransferCompleted).reputation
            == agent.reputation + 1,
{
}

/// The paid action asks for exactly the price that the price query gives, and
/// asks for nothing where the price query fails.
pub proof fn payment_asks_for_the_price(agent: Agent, config: GlobalConfig)
    ensures
        perform_action_with_payment_verdict(agent, config, PaymentEvent::Requested) matches Ok(
            action,
        ) ==> get_price_verdict(agent, config) == Ok::<u64, CustomError>(action->amount),
        get_price_verdict(agent, config) is Err ==> perform_action_with_payment_verdict(
            agent,
            config,
            PaymentEvent::Requested,
        ) == Err::<PaymentAction, CustomError>(
            get_price_verdict(agent, config)->Err_0,
        ),
{
}

} // verus!
