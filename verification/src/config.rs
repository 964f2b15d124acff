//! The settings record: how it is created and how the admin changes it.

use crate::error::CustomError;
use crate::identity::{authorization, authorize};
use crate::state::GlobalConfig;
use anchor_lang::prelude::Pubkey;
use vstd::prelude::*;

verus! {

/// The settings a new registry starts with, under `admin`.
pub open spec fn initial_config(admin: Pubkey) -> GlobalConfig {
    GlobalConfig {
        admin_pubkey: admin,
        base_price: 100,
        discount_threshold: 50,
        discount_percent: 50,
        min_reputation: 10,
    }
}

/// Creates the settings record with its defaults and makes the caller its admin.
pub fn initialize_config(user: Pubkey) -> (config: GlobalConfig)
    ensures
        config == initial_config(user),
        config.well_formed(),
{
    GlobalConfig {
        admin_pubkey: user,
        base_price: 100,
        discount_threshold: 50,
        discount_percent: 50,
        min_reputation: 10,
    }
}

/// What [`update_pricing_config`] answers: authority is checked before the
/// discount.
pub open spec fn update_pricing_config_verdict(
    config: GlobalConfig,
    admin: Pubkey,
    discount_percent: u8,
) -> Result<(), CustomError> {
    if authorization(admin, config.admin_pubkey) is Err {
        Err(CustomError::Unauthorized)
    } else if discount_percent > 100 {
        Err(CustomError::InvalidDiscount)
    } else {
        Ok(())
    }
}

/// The settings as [`update_pricing_config`] leaves them: all four values
/// replaced, or none.
pub open spec fn after_update_pricing_config(
    config: GlobalConfig,
    admin: Pubkey,
    base_price: u64,
    discount_threshold: u64,
    discount_percent: u8,
    min_reputation: u64,
) -> GlobalConfig {
    if update_pricing_config_verdict(config, admin, discount_percent) is Ok {
        GlobalConfig {
            admin_pubkey: config.admin_pubkey,
            base_price,
            discount_threshold,
            discount_percent,
            min_reputation,
        }
    } else {
        config
    }
}

/// Replaces the four pricing values, on the admin's word. The admin stays.
pub fn update_pricing_config(
    config: &mut GlobalConfig,
    admin: &Pubkey,
    base_price: u64,
    discount_threshold: u64,
    discount_percent: u8,
    min_reputation: u64,
) -> (verdict: Result<(), CustomError>)
    ensures
        verdict == update_pricing_config_verdict(*old(config), *admin, discount_percent),
        *final(config) == after_update_pricing_config(
            *old(config),
            *admin,
            base_price,
            discount_threshold,
            discount_percent,
            min_reputation,
        ),
        old(config).well_formed() ==> final(config).well_formed(),
{
    authorize(admin, &config.admin_pubkey)?;
    if discount_percent > 100 {
        return Err(CustomError::InvalidDiscount);
    }
    config.base_price = base_price;
    config.discount_threshold = discount_threshold;
    config.discount_percent = discount_percent;
    config.min_reputation = min_reputation;
    Ok(())
}

} // verus!
