use agent_registry::config::initialize_config;
use agent_registry::error::CustomError;
use agent_registry::pricing::get_price;
use agent_registry::state::{Agent, GlobalConfig};
use anchor_lang::prelude::Pubkey;

fn owner() -> Pubkey {
    Pubkey::new_from_array([1; 32])
}

fn admin() -> Pubkey {
    Pubkey::new_from_array([2; 32])
}

fn agent_with(reputation: u64) -> Agent {
    Agent { agent_pubkey: owner(), is_active: true, reputation }
}

fn config_with(base_price: u64, discount_threshold: u64, discount_percent: u8, min_reputation: u64) -> GlobalConfig {
    GlobalConfig { admin_pubkey: admin(), base_price, discount_threshold, discount_percent, min_reputation }
}

#[test]
fn price_example_below_at_and_under_the_floor() {
    let config = config_with(100, 50, 50, 10);
    assert_eq!(get_price(&agent_with(49), &config), Ok(100));
    assert_eq!(get_price(&agent_with(50), &config), Ok(50));
    assert_eq!(get_price(&agent_with(9), &config), Err(CustomError::LowReputation));
}

#[test]
fn price_under_the_default_settings() {
    let config = initialize_config(admin());
    assert_eq!(get_price(&agent_with(10), &config), Ok(100));
    assert_eq!(get_price(&agent_with(51), &config), Ok(50));
    assert_eq!(get_price(&agent_with(0), &config), Err(CustomError::LowReputation));
}

#[test]
fn price_of_inactive_agent_is_rejected() {
    let config = config_with(100, 50, 50, 10);
    let idle = Agent { agent_pubkey: owner(), is_active: false, reputation: 80 };
    assert_eq!(get_price(&idle, &config), Err(CustomError::AgentInactive));
    let idle_and_low = Agent { agent_pubkey: owner(), is_active: false, reputation: 1 };
    assert_eq!(get_price(&idle_and_low, &config), Err(CustomError::AgentInactive));
}

#[test]
fn price_rounds_down() {
    assert_eq!(get_price(&agent_with(5), &config_with(999, 5, 33, 0)), Ok(669));
    assert_eq!(get_price(&agent_with(5), &config_with(1, 5, 1, 0)), Ok(0));
    assert_eq!(get_price(&agent_with(5), &config_with(199, 5, 50, 0)), Ok(99));
    assert_eq!(get_price(&agent_with(5), &config_with(7, 0, 10, 0)), Ok(6));
}

#[test]
fn price_with_no_discount_and_full_discount() {
    assert_eq!(get_price(&agent_with(5), &config_with(250, 5, 0, 0)), Ok(250));
    assert_eq!(get_price(&agent_with(5), &config_with(250, 5, 100, 0)), Ok(0));
}

#[test]
fn price_at_the_floor_is_served() {
    let config = config_with(100, 50, 50, 10);
    assert_eq!(get_price(&agent_with(10), &config), Ok(100));
}

#[test]
fn price_product_that_leaves_the_range_overflows() {
    let edge = u64::MAX / 100;
    assert_eq!(get_price(&agent_with(5), &config_with(edge, 5, 0, 0)), Ok(edge));
    assert_eq!(
        get_price(&agent_with(5), &config_with(edge + 1, 5, 0, 0)),
        Err(CustomError::ArithmeticOverflow)
    );
    assert_eq!(get_price(&agent_with(5), &config_with(u64::MAX, 5, 99, 0)), Ok(u64::MAX / 100));
    assert_eq!(get_price(&agent_with(5), &config_with(u64::MAX, 5, 100, 0)), Ok(0));
    assert_eq!(
        get_price(&agent_with(5), &config_with(u64::MAX, 5, 98, 0)),
        Err(CustomError::ArithmeticOverflow)
    );
}

#[test]
fn price_without_discount_needs_no_product() {
    assert_eq!(get_price(&agent_with(4), &config_with(u64::MAX, 5, 50, 0)), Ok(u64::MAX));
}

#[test]
fn price_under_a_discount_above_one_hundred_overflows() {
    assert_eq!(
        get_price(&agent_with(5), &config_with(100, 5, 101, 0)),
        Err(CustomError::ArithmeticOverflow)
    );
    assert_eq!(get_price(&agent_with(4), &config_with(100, 5, 101, 0)), Ok(100));
}

#[test]
fn price_query_changes_nothing_and_repeats() {
    let config = config_with(120, 30, 25, 10);
    let agent = agent_with(30);
    let config_before = config;
    let agent_before = agent;
    let first = get_price(&agent, &config);
    let second = get_price(&agent, &config);
    assert_eq!(first, Ok(90));
    assert_eq!(first, second);
    assert_eq!(agent, agent_before);
    assert_eq!(config, config_before);
}

#[test]
fn price_does_not_depend_on_identities() {
    let config = config_with(120, 30, 25, 10);
    let elsewhere = GlobalConfig { admin_pubkey: Pubkey::new_from_array([9; 32]), ..config };
    let someone = Agent { agent_pubkey: Pubkey::new_from_array([8; 32]), ..agent_with(30) };
    assert_eq!(get_price(&agent_with(30), &config), get_price(&someone, &elsewhere));
}
