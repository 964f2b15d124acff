//! Registry of agents whose access to a priced service depends on an activity
//! flag and a reputation score.
//!
//! Every operation is a checked state transition: it validates first, and a
//! request that fails any check changes nothing. The records are plain values
//! handed in by the host, which stores them, resolves them from identities
//! and moves the funds.
//!
//! Each operation comes with two spec functions, its verdict and the record
//! as it leaves it, and its contract says that it computes exactly these. The
//! module [`laws`] states what follows for the operations taken together.

pub mod config;
pub mod error;
pub mod identity;
pub mod laws;
pub mod lifecycle;
pub mod payment;
pub mod pricing;
pub mod reputation;
pub mod state;

pub use config::{initialize_config, update_pricing_config};
pub use error::CustomError;
pub use identity::authorize;
pub use lifecycle::{deactivate_agent, reactivate_agent, register_agent};
pub use payment::{perform_action_with_payment, PaymentAction, PaymentEvent};
pub use pricing::get_price;
pub use reputation::{penalize_agent, perform_action, MAX_PENALTY_PER_ACTION};
pub use state::{Agent, GlobalConfig, Treasury};
