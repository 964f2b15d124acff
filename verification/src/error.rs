//! Why a request was turned down.

use vstd::prelude::*;

verus! {

/// The reason a request was rejected. A rejected request changes no record.
#[derive(Clone, Copy, Debug, PartialEq, Eq, Structural)]
pub enum CustomError {
    /// The agent is inactive and the operation needs an active one.
    AgentInactive,
    /// The caller is neither the agent's owner nor the admin the operation asks for.
    Unauthorized,
    /// The agent to deactivate is inactive already.
    AlreadyInactive,
    /// The agent to reactivate is active already.
    AlreadyActive,
    /// The agent to penalize has no reputation left.
    AlreadyZero,
    /// The penalty is larger than the agent's reputation.
    ChoosePenalty,
    /// The penalty is zero or above the cap for one call.
    PenaltyTooLarge,
    /// The agent's reputation is below the configured floor.
    LowReputation,
    /// The discount is above one hundred percent.
    InvalidDiscount,
    /// A reputation or a price left the range of its integer type.
    ArithmeticOverflow,
    /// The host could not move the price to the treasury.
    TransferFailed,
}

} // verus!
