use coral_rs::api::{ClaimAmount, ClaimResponse, McpToolName, PICO_PER_UNIT};
use coral_rs::claim_manager::{ClaimManager, Usage};
use coral_rs::error::Error;

const USD: i128 = PICO_PER_UNIT;

fn manager(send_claims: bool) -> ClaimManager {
    ClaimManager::new("http://ledger".to_string(), "session".to_string(), send_claims)
}

fn usage(input_tokens: u64, output_tokens: u64, total_tokens: u64) -> Usage {
    Usage { input_tokens, output_tokens, total_tokens }
}

#[test]
fn new_manager_claims_nothing() {
    let m = manager(true);
    assert_eq!(m.claim_iteration(), vec![]);
    assert_eq!(m.claim_tool_iteration(), vec![]);
    assert_eq!(m.claim_tool_call("any"), vec![]);
    assert_eq!(m.claim_tokens(&usage(10, 20, 30)), Ok(vec![]));
    assert_eq!(m.api_url(), "http://ledger");
    assert_eq!(m.remote_session_id(), "session");
}

#[test]
fn zero_amount_is_never_sent() {
    let m = manager(true);
    assert_eq!(m.claim(ClaimAmount::Usd(0)), None);
    assert_eq!(m.claim(ClaimAmount::MicroCoral(0)), None);
    assert_eq!(m.claim(ClaimAmount::Coral(0)), None);
    assert_eq!(m.claim(ClaimAmount::Usd(1)), Some(ClaimAmount::Usd(1)));
}

#[test]
fn disabled_claims_are_never_sent() {
    let m = manager(false)
        .input_token_cost(ClaimAmount::MicroCoral(3))
        .output_token_cost(ClaimAmount::MicroCoral(5))
        .base_iteration_cost(ClaimAmount::Usd(30 * USD))
        .base_tool_iteration_cost(ClaimAmount::Usd(10 * USD))
        .base_tool_call_cost(ClaimAmount::Usd(USD))
        .custom_tool_cost("coral_send_message".to_string(), ClaimAmount::Usd(100 * USD));
    assert_eq!(m.claim(ClaimAmount::Usd(7)), None);
    assert_eq!(m.claim_iteration(), vec![]);
    assert_eq!(m.claim_tool_iteration(), vec![]);
    assert_eq!(m.claim_tool_call("coral_send_message"), vec![]);
    assert_eq!(m.claim_tokens(&usage(10, 20, 30)), Ok(vec![]));
    // Not even an amount that is out of range matters while claims are off.
    let huge = manager(false).output_token_cost(ClaimAmount::MicroCoral(i64::MAX));
    assert_eq!(huge.claim_tokens(&usage(0, 0, 9)), Ok(vec![]));
}

#[test]
fn tokens_are_claimed_as_input_then_output() {
    let m = manager(true)
        .input_token_cost(ClaimAmount::MicroCoral(3))
        .output_token_cost(ClaimAmount::MicroCoral(5));
    assert_eq!(
        m.claim_tokens(&usage(10, 20, 30)),
        Ok(vec![ClaimAmount::MicroCoral(30), ClaimAmount::MicroCoral(100)])
    );
}

#[test]
fn tokens_with_only_a_total_use_the_output_cost() {
    let m = manager(true)
        .input_token_cost(ClaimAmount::MicroCoral(3))
        .output_token_cost(ClaimAmount::MicroCoral(5));
    assert_eq!(m.claim_tokens(&usage(0, 0, 40)), Ok(vec![ClaimAmount::MicroCoral(200)]));
    assert_eq!(m.claim_tokens(&usage(10, 20, 31)), Ok(vec![ClaimAmount::MicroCoral(155)]));
}

#[test]
fn tokens_with_a_zero_cost_side_skip_that_side() {
    let m = manager(true).output_token_cost(ClaimAmount::MicroCoral(5));
    assert_eq!(m.claim_tokens(&usage(10, 20, 30)), Ok(vec![ClaimAmount::MicroCoral(100)]));
    let n = manager(true).input_token_cost(ClaimAmount::MicroCoral(3));
    assert_eq!(n.claim_tokens(&usage(10, 20, 30)), Ok(vec![ClaimAmount::MicroCoral(30)]));
    // Only a total was reported and the output cost is zero: nothing to send.
    assert_eq!(n.claim_tokens(&usage(0, 0, 30)), Ok(vec![]));
}

#[test]
fn zero_tokens_claim_nothing() {
    let m = manager(true)
        .input_token_cost(ClaimAmount::MicroCoral(3))
        .output_token_cost(ClaimAmount::MicroCoral(5));
    assert_eq!(m.claim_tokens(&usage(0, 0, 0)), Ok(vec![]));
}

#[test]
fn token_sum_is_not_confused_by_wrapping() {
    let m = manager(true)
        .input_token_cost(ClaimAmount::MicroCoral(1))
        .output_token_cost(ClaimAmount::MicroCoral(1));
    // u64::MAX + 2 wraps to 1, which is not the sum.
    assert_eq!(m.claim_tokens(&usage(u64::MAX, 2, 1)), Ok(vec![ClaimAmount::MicroCoral(1)]));
}

#[test]
fn token_claim_out_of_range_is_an_error() {
    let m = manager(true).output_token_cost(ClaimAmount::MicroCoral(i64::MAX));
    assert_eq!(m.claim_tokens(&usage(0, 0, 2)), Err(Error::AmountOverflow));
    let n = manager(true)
        .input_token_cost(ClaimAmount::Usd(1))
        .output_token_cost(ClaimAmount::Usd(i128::MAX));
    assert_eq!(n.claim_tokens(&usage(1, 2, 3)), Err(Error::AmountOverflow));
}

#[test]
fn price_per_million_tokens_is_exact() {
    // 1.25 dollars per million input tokens, 10 per million output tokens.
    let m = manager(true)
        .mil_input_token_cost(ClaimAmount::Usd(1_250_000_000_000))
        .mil_output_token_cost(ClaimAmount::Usd(10 * USD));
    assert_eq!(
        m.claim_tokens(&usage(12_345, 1_000_000, 1_012_345)),
        Ok(vec![ClaimAmount::Usd(15_431_250_000), ClaimAmount::Usd(10 * USD)])
    );
}

#[test]
fn price_per_million_rounds_toward_zero() {
    let m = manager(true)
        .mil_input_token_cost(ClaimAmount::MicroCoral(2_999_999))
        .mil_output_token_cost(ClaimAmount::MicroCoral(-2_999_999));
    assert_eq!(
        m.claim_tokens(&usage(1, 1, 2)),
        Ok(vec![ClaimAmount::MicroCoral(2), ClaimAmount::MicroCoral(-2)])
    );
}

#[test]
fn iteration_costs_are_claimed_flat() {
    let m = manager(true)
        .base_iteration_cost(ClaimAmount::Usd(30 * USD))
        .base_tool_iteration_cost(ClaimAmount::Coral(10 * USD));
    assert_eq!(m.claim_iteration(), vec![ClaimAmount::Usd(30 * USD)]);
    assert_eq!(m.claim_tool_iteration(), vec![ClaimAmount::Coral(10 * USD)]);
}

#[test]
fn tool_call_bills_base_and_custom_cost() {
    let m = manager(true)
        .base_tool_call_cost(ClaimAmount::Usd(USD))
        .custom_tool_cost("coral_send_message".to_string(), ClaimAmount::Usd(100 * USD));
    assert_eq!(
        m.claim_tool_call("coral_send_message"),
        vec![ClaimAmount::Usd(USD), ClaimAmount::Usd(100 * USD)]
    );
    assert_eq!(m.claim_tool_call("other"), vec![ClaimAmount::Usd(USD)]);
}

#[test]
fn tool_call_with_custom_cost_only() {
    let m = manager(true).coral_custom_tool_cost(McpToolName::CoralSendMessage, ClaimAmount::MicroCoral(7));
    assert_eq!(m.claim_tool_call("coral_send_message"), vec![ClaimAmount::MicroCoral(7)]);
    assert_eq!(m.claim_tool_call("coral_send_messages"), vec![]);
}

#[test]
fn later_custom_cost_replaces_earlier() {
    let m = manager(true)
        .custom_tool_cost("t".to_string(), ClaimAmount::MicroCoral(7))
        .custom_tool_cost("t".to_string(), ClaimAmount::MicroCoral(9));
    assert_eq!(m.claim_tool_call("t"), vec![ClaimAmount::MicroCoral(9)]);
    let free = manager(true)
        .base_tool_call_cost(ClaimAmount::MicroCoral(1))
        .custom_tool_cost("t".to_string(), ClaimAmount::MicroCoral(0));
    assert_eq!(free.claim_tool_call("t"), vec![ClaimAmount::MicroCoral(1)]);
}

#[test]
fn remaining_at_or_below_floor_exhausts_budget() {
    let m = manager(true).min_budget(ClaimAmount::MicroCoral(100));
    let price = 2 * 1_000_000_000_000;
    assert_eq!(
        m.settle(&ClaimResponse { remaining_budget: 50, coral_usd_price: price }),
        Err(Error::BudgetExhausted)
    );
    assert_eq!(
        m.settle(&ClaimResponse { remaining_budget: 100, coral_usd_price: price }),
        Err(Error::BudgetExhausted)
    );
    assert_eq!(m.settle(&ClaimResponse { remaining_budget: 101, coral_usd_price: price }), Ok(()));
}

#[test]
fn exhaustion_is_not_enforced_when_switched_off() {
    let m = manager(true).min_budget(ClaimAmount::MicroCoral(100)).exit_on_budget_exhausted(false);
    assert_eq!(m.settle(&ClaimResponse { remaining_budget: 50, coral_usd_price: 1 }), Ok(()));
    assert_eq!(m.settle(&ClaimResponse { remaining_budget: -50, coral_usd_price: 1 }), Ok(()));
}

#[test]
fn default_floor_is_zero() {
    let m = manager(true);
    assert_eq!(m.settle(&ClaimResponse { remaining_budget: 1, coral_usd_price: 0 }), Ok(()));
    assert_eq!(
        m.settle(&ClaimResponse { remaining_budget: 0, coral_usd_price: 0 }),
        Err(Error::BudgetExhausted)
    );
    assert_eq!(
        m.settle(&ClaimResponse { remaining_budget: -1, coral_usd_price: 0 }),
        Err(Error::BudgetExhausted)
    );
}

#[test]
fn floor_in_coral_is_a_million_micro_coral_each() {
    // 1.5 coral
    let m = manager(true).min_budget(ClaimAmount::Coral(1_500_000_000_000));
    assert_eq!(m.min_budget_micro_coral(0), 1_500_000);
    assert_eq!(m.min_budget_micro_coral(123), 1_500_000);
    let small = manager(true).min_budget(ClaimAmount::Coral(1_999_999));
    assert_eq!(small.min_budget_micro_coral(0), 1);
    let negative = manager(true).min_budget(ClaimAmount::Coral(-1_999_999));
    assert_eq!(negative.min_budget_micro_coral(0), -1);
    let huge = manager(true).min_budget(ClaimAmount::Coral(i128::MAX));
    assert_eq!(huge.min_budget_micro_coral(0), i64::MAX);
    let tiny = manager(true).min_budget(ClaimAmount::Coral(i128::MIN));
    assert_eq!(tiny.min_budget_micro_coral(0), i64::MIN);
}

#[test]
fn floor_in_dollars_goes_by_the_price() {
    // 3 dollars at 2 dollars per coral: 1.5 coral.
    let m = manager(true).min_budget(ClaimAmount::Usd(3 * USD));
    assert_eq!(m.min_budget_micro_coral((2 * USD) as i64), 1_500_000);
    // 1 dollar at 3 dollars per coral: a third of a coral, fraction dropped.
    let third = manager(true).min_budget(ClaimAmount::Usd(USD));
    assert_eq!(third.min_budget_micro_coral((3 * USD) as i64), 333_333);
    assert_eq!(third.min_budget_micro_coral(-(3 * USD) as i64), -333_333);
    let debt = manager(true).min_budget(ClaimAmount::Usd(-USD));
    assert_eq!(debt.min_budget_micro_coral((3 * USD) as i64), -333_333);
    assert_eq!(debt.min_budget_micro_coral(-(3 * USD) as i64), 333_333);
}

#[test]
fn floor_in_dollars_at_no_price() {
    assert_eq!(manager(true).min_budget(ClaimAmount::Usd(1)).min_budget_micro_coral(0), i64::MAX);
    assert_eq!(manager(true).min_budget(ClaimAmount::Usd(-1)).min_budget_micro_coral(0), i64::MIN);
    assert_eq!(manager(true).min_budget(ClaimAmount::Usd(0)).min_budget_micro_coral(0), 0);
}

#[test]
fn floor_in_dollars_is_limited_to_the_ledger_unit() {
    let m = manager(true).min_budget(ClaimAmount::Usd(i128::MAX));
    assert_eq!(m.min_budget_micro_coral(1), i64::MAX);
    assert_eq!(m.min_budget_micro_coral(-1), i64::MIN);
    assert_eq!(m.min_budget_micro_coral(i64::MAX), i64::MAX);
    let n = manager(true).min_budget(ClaimAmount::Usd(i128::MIN));
    assert_eq!(n.min_budget_micro_coral(1), i64::MIN);
    assert_eq!(n.min_budget_micro_coral(i64::MIN), i64::MAX);
    // 9223372036854 dollars at one dollar per coral is just within range.
    let edge = manager(true).min_budget(ClaimAmount::Usd(9_223_372_036_854 * USD));
    assert_eq!(edge.min_budget_micro_coral(USD as i64), 9_223_372_036_854_000_000);
    let over = manager(true).min_budget(ClaimAmount::Usd(9_223_372_036_855 * USD));
    assert_eq!(over.min_budget_micro_coral(USD as i64), i64::MAX);
}

#[test]
fn dollar_floor_decides_exhaustion() {
    let m = manager(true).min_budget(ClaimAmount::Usd(3 * USD));
    let price = (2 * USD) as i64;
    assert_eq!(
        m.settle(&ClaimResponse { remaining_budget: 1_500_000, coral_usd_price: price }),
        Err(Error::BudgetExhausted)
    );
    assert_eq!(
        m.settle(&ClaimResponse { remaining_budget: 1_500_001, coral_usd_price: price }),
        Ok(())
    );
}
