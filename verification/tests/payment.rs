use agent_registry::config::initialize_config;
use agent_registry::error::CustomError;
use agent_registry::payment::{perform_action_with_payment, PaymentAction, PaymentEvent};
use agent_registry::pricing::get_price;
use agent_registry::state::{Agent, GlobalConfig};
use anchor_lang::prelude::Pubkey;

fn owner() -> Pubkey {
    Pubkey::new_from_array([1; 32])
}

fn admin() -> Pubkey {
    Pubkey::new_from_array([2; 32])
}

fn agent_with(reputation: u64) -> Agent {
    Agent { agent_pubkey: owner(), is_active: true, reputation }
}

fn config_with(base_price: u64, discount_threshold: u64, discount_percent: u8, min_reputation: u64) -> GlobalConfig {
    GlobalConfig { admin_pubkey: admin(), base_price, discount_threshold, discount_percent, min_reputation }
}

#[test]
fn payment_request_asks_for_the_price() {
    let config = initialize_config(admin());
    let mut agent = agent_with(20);
    assert_eq!(
        perform_action_with_payment(&mut agent, &config, PaymentEvent::Requested),
        Ok(PaymentAction::Transfer { amount: 100 })
    );
    assert_eq!(agent, agent_with(20));
    let mut trusted = agent_with(50);
    assert_eq!(
        perform_action_with_payment(&mut trusted, &config, PaymentEvent::Requested),
        Ok(PaymentAction::Transfer { amount: 50 })
    );
    assert_eq!(trusted, agent_with(50));
}

#[test]
fn payment_request_matches_the_price_query() {
    let config = config_with(999, 5, 33, 2);
    for reputation in [2u64, 4, 5, 6, 1000] {
        let mut agent = agent_with(reputation);
        let price = get_price(&agent, &config).unwrap();
        assert_eq!(
            perform_action_with_payment(&mut agent, &config, PaymentEvent::Requested),
            Ok(PaymentAction::Transfer { amount: price })
        );
    }
}

#[test]
fn payment_completed_raises_reputation_by_one() {
    let config = initialize_config(admin());
    let mut agent = agent_with(20);
    assert_eq!(
        perform_action_with_payment(&mut agent, &config, PaymentEvent::TransferCompleted),
        Ok(PaymentAction::Finished)
    );
    assert_eq!(agent, agent_with(21));
}

#[test]
fn payment_failed_transfer_keeps_the_reputation() {
    let config = initialize_config(admin());
    let mut agent = agent_with(20);
    assert_eq!(
        perform_action_with_payment(&mut agent, &config, PaymentEvent::TransferFailed),
        Err(CustomError::TransferFailed)
    );
    assert_eq!(agent, agent_with(20));
}

#[test]
fn payment_runs_request_then_completion() {
    let config = initialize_config(admin());
    let mut agent = agent_with(49);
    let mut treasury: u64 = 0;
    for expected_price in [100u64, 50, 50] {
        let step = perform_action_with_payment(&mut agent, &config, PaymentEvent::Requested);
        assert_eq!(step, Ok(PaymentAction::Transfer { amount: expected_price }));
        treasury += expected_price;
        let step = perform_action_with_payment(&mut agent, &config, PaymentEvent::TransferCompleted);
        assert_eq!(step, Ok(PaymentAction::Finished));
    }
    assert_eq!(agent.reputation, 52);
    assert_eq!(treasury, 200);
}

#[test]
fn payment_of_inactive_agent_is_rejected_at_every_step() {
    let config = initialize_config(admin());
    for event in [PaymentEvent::Requested, PaymentEvent::TransferCompleted, PaymentEvent::TransferFailed] {
        let mut agent = Agent { agent_pubkey: owner(), is_active: false, reputation: 20 };
        assert_eq!(perform_action_with_payment(&mut agent, &config, event), Err(CustomError::AgentInactive));
        assert_eq!(agent.reputation, 20);
    }
}

#[test]
fn payment_below_the_floor_is_rejected_at_every_step() {
    let config = initialize_config(admin());
    for event in [PaymentEvent::Requested, PaymentEvent::TransferCompleted, PaymentEvent::TransferFailed] {
        let mut agent = agent_with(9);
        assert_eq!(perform_action_with_payment(&mut agent, &config, event), Err(CustomError::LowReputation));
        assert_eq!(agent, agent_with(9));
    }
}

#[test]
fn payment_with_price_out_of_range_overflows() {
    let config = config_with(u64::MAX, 5, 50, 0);
    let mut agent = agent_with(5);
    assert_eq!(
        perform_action_with_payment(&mut agent, &config, PaymentEvent::Requested),
        Err(CustomError::ArithmeticOverflow)
    );
    assert_eq!(agent, agent_with(5));
}

#[test]
fn payment_at_the_top_of_the_range_asks_for_no_transfer() {
    let config = config_with(100, 50, 50, 10);
    for event in [PaymentEvent::Requested, PaymentEvent::TransferCompleted, PaymentEvent::TransferFailed] {
        let mut agent = agent_with(u64::MAX);
        assert_eq!(
            perform_action_with_payment(&mut agent, &config, event),
            Err(CustomError::ArithmeticOverflow)
        );
        assert_eq!(agent, agent_with(u64::MAX));
    }
}

#[test]
fn payment_just_below_the_top_reaches_it() {
    let config = config_with(100, 50, 50, 10);
    let mut agent = agent_with(u64::MAX - 1);
    assert_eq!(
        perform_action_with_payment(&mut agent, &config, PaymentEvent::Requested),
        Ok(PaymentAction::Transfer { amount: 50 })
    );
    assert_eq!(
        perform_action_with_payment(&mut agent, &config, PaymentEvent::TransferCompleted),
        Ok(PaymentAction::Finished)
    );
    assert_eq!(agent.reputation, u64::MAX);
}

#[test]
fn payment_leaves_the_settings_alone() {
    let config = config_with(100, 50, 50, 10);
    let before = config;
    let mut agent = agent_with(60);
    let _ = perform_action_with_payment(&mut agent, &config, PaymentEvent::Requested);
    let _ = perform_action_with_payment(&mut agent, &config, PaymentEvent::TransferCompleted);
    assert_eq!(config, before);
}
