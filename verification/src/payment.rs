//! The action that is paid for: one step of reputation for the price of the
//! service.
//!
//! The registry does not move funds. It tells the host what to transfer and
//! is told how the transfer went; the agent's reputation rises only on the
//! report of a completed transfer.

use crate::error::CustomError;
use crate::pricing::{get_price, get_price_verdict};
use crate::state::{Agent, GlobalConfig};
use vstd::prelude::*;

verus! {

/// What the host reports to [`perform_action_with_payment`].
#[derive(Clone, Copy, Debug, PartialEq, Eq, Structural)]
pub enum PaymentEvent {
    /// The caller asks for the paid action; nothing has been transferred.
    Requested,
    /// The amount asked for has reached the treasury.
    TransferCompleted,
    /// The transfer did not take place.
    TransferFailed,
}

/// What the host is to do next.
#[derive(Clone, Copy, Debug, PartialEq, Eq, Structural)]
pub enum PaymentAction {
    /// Move `amount` from the caller to the treasury and report the outcome.
    Transfer { amount: u64 },
    /// Nothing: the action is recorded.
    Finished,
}

/// The checks that stand before any transfer, and the price if all pass:
/// those of the price itself, then room for one more unit of reputation.
pub open spec fn payment_checks(agent: Agent, config: GlobalConfig) -> Result<u64, CustomError> {
    match get_price_verdict(agent, config) {
        Err(e) => Err(e),
        Ok(price) => if agent.reputation == u64::MAX {
            Err(CustomError::ArithmeticOverflow)
        } else {
            Ok(price)
        },
    }
}

/// What [`perform_action_with_payment`] answers.
pub open spec fn perform_action_with_payment_verdict(
    agent: Agent,
    config: GlobalConfig,
    event: PaymentEvent,
) -> Result<PaymentAction, CustomError> {
    match payment_checks(agent, config) {
        Err(e) => Err(e),
        Ok(price) => match event {
            PaymentEvent::Requested => Ok(PaymentAction::Transfer { amount: price }),
            PaymentEvent::TransferCompleted => Ok(PaymentAction::Finished),
            PaymentEvent::TransferFailed => Err(CustomError::TransferFailed),
        },
    }
}

/// The agent as [`perform_action_with_payment`] leaves it: one unit of
/// reputation up on a completed transfer that passes the checks, else as it was.
pub open spec fn after_perform_action_with_payment(
    agent: Agent,
    config: GlobalConfig,
    event: PaymentEvent,
) -> Agent {
    if event is TransferCompleted && payment_checks(agent, config) is Ok {
        Agent { reputation: (agent.reputation + 1) as u64, ..agent }
    } else {
        agent
    }
}

/// One step of the paid action.
///
/// On `Requested` the agent is checked and priced, and the host is asked to
/// transfer the price. On `TransferCompleted` the agent is checked again and
/// its reputation raised by one. On `TransferFailed`, and whenever a check
/// fails, the agent is left as it was and the operation is over.
pub fn perform_action_with_payment(
    agent: &mut Agent,
    config: &GlobalConfig,
    event: PaymentEvent,
) -> (verdict: Result<PaymentAction, CustomError>)
    ensures
        verdict == perform_action_with_payment_verdict(*old(agent), *config, event),
        *final(agent) == after_perform_action_with_payment(*old(agent), *config, event),
{
    let price: u64 = get_price(agent, config)?;
    let raised: u64 = match agent.reputation.checked_add(1) {
        Some(raised) => raised,
        None => {
            return Err(CustomError::ArithmeticOverflow);
        },
    };
    match event {
        PaymentEvent::Requested => Ok(PaymentAction::Transfer { amount: price }),
        PaymentEvent::TransferCompleted => {
            agent.reputation = raised;
            Ok(PaymentAction::Finished)
        },
        PaymentEvent::TransferFailed => Err(CustomError::TransferFailed),
    }
}

} // verus!
