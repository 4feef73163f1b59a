use coral_rs::agent::CompletionResult;
use coral_rs::agent_loop::{AgentLoop, LoopPhase, RoundEnd, DEFAULT_ITERATION_TOOL_QUOTA};
use coral_rs::error::Error;
use coral_rs::message::Message;

fn round(history: Vec<Message>, tools_used: usize) -> CompletionResult {
    let mut messages = history;
    messages.push(Message::Assistant { id: None, content: vec![] });
    CompletionResult { messages, texts: vec![], tools_used, telemetry_targets: vec![] }
}

#[test]
fn new_scheduler_requests_a_prompt() {
    let s = AgentLoop::new();
    assert_eq!(s.phase(), LoopPhase::RequestPrompt);
    assert_eq!(s.quota(), Some(64));
    assert_eq!(DEFAULT_ITERATION_TOOL_QUOTA, 64);
    assert_eq!(s.iterations(), 0);
    assert_eq!(s.depth(), 0);
}

#[test]
fn prompt_opens_an_iteration() {
    let mut s = AgentLoop::new();
    assert_eq!(s.prompt(Some("hello".to_string())), LoopPhase::RunRound);
    assert_eq!(s.iterations(), 1);
    assert_eq!(s.take_history(), vec![Message::user("hello".to_string())]);
    assert_eq!(s.take_history(), vec![]);
}

#[test]
fn end_of_prompts_ends_the_run() {
    let mut s = AgentLoop::new();
    assert_eq!(s.prompt(None), LoopPhase::Terminated);
    assert_eq!(s.prompt(Some("late".to_string())), LoopPhase::Terminated);
    assert_eq!(s.iterations(), 0);
    assert_eq!(s.round_finished(round(vec![], 1)), RoundEnd::Ignored);
}

#[test]
fn round_without_tools_ends_the_prompt() {
    let mut s = AgentLoop::new();
    s.prompt(Some("one".to_string()));
    let history = s.take_history();
    assert_eq!(s.round_finished(round(history, 0)), RoundEnd::NoToolsUsed);
    assert_eq!(s.phase(), LoopPhase::RequestPrompt);
    assert_eq!(s.depth(), 1);
    // The next prompt is appended to what the round returned.
    s.prompt(Some("two".to_string()));
    assert_eq!(s.iterations(), 2);
    assert_eq!(s.depth(), 0);
    let history = s.take_history();
    assert_eq!(history.len(), 3);
    assert_eq!(history[0], Message::user("one".to_string()));
    assert_eq!(history[2], Message::user("two".to_string()));
}

#[test]
fn two_tool_calls_then_text_only() {
    let mut s = AgentLoop::new();
    s.prompt(Some("go".to_string()));
    let history = s.take_history();
    assert_eq!(s.round_finished(round(history, 2)), RoundEnd::Continue);
    assert_eq!(s.phase(), LoopPhase::RunRound);
    let history = s.take_history();
    assert_eq!(s.round_finished(round(history, 0)), RoundEnd::NoToolsUsed);
    assert_eq!(s.phase(), LoopPhase::RequestPrompt);
    assert_eq!(s.depth(), 2);
}

#[test]
fn quota_of_three_gives_exactly_three_rounds() {
    let mut s = AgentLoop::new().iteration_tool_quota(Some(3));
    s.prompt(Some("go".to_string()));
    let mut rounds = 0;
    let mut last = RoundEnd::Continue;
    while s.phase() == LoopPhase::RunRound {
        let history = s.take_history();
        last = s.round_finished(round(history, 1));
        rounds += 1;
        assert!(rounds <= 10);
    }
    assert_eq!(rounds, 3);
    assert_eq!(last, RoundEnd::QuotaReached);
    assert_eq!(s.phase(), LoopPhase::RequestPrompt);
    // The scheduler goes on with the next prompt.
    assert_eq!(s.prompt(Some("next".to_string())), LoopPhase::RunRound);
    assert_eq!(s.depth(), 0);
}

#[test]
fn quota_of_one_gives_one_round() {
    let mut s = AgentLoop::new().iteration_tool_quota(Some(1));
    s.prompt(Some("go".to_string()));
    let history = s.take_history();
    assert_eq!(s.round_finished(round(history, 5)), RoundEnd::QuotaReached);
}

#[test]
fn no_quota_and_quota_zero_never_stop_a_model_that_uses_tools() {
    for quota in [None, Some(0)] {
        let mut s = AgentLoop::new().iteration_tool_quota(quota);
        s.prompt(Some("go".to_string()));
        for _ in 0..200 {
            let history = s.take_history();
            assert_eq!(s.round_finished(round(history, 1)), RoundEnd::Continue);
        }
        assert_eq!(s.depth(), 200);
        assert_eq!(s.phase(), LoopPhase::RunRound);
    }
}

#[test]
fn default_quota_is_reached_after_sixty_four_rounds() {
    let mut s = AgentLoop::new();
    s.prompt(Some("go".to_string()));
    for _ in 0..63 {
        assert_eq!(s.round_finished(round(vec![], 1)), RoundEnd::Continue);
    }
    assert_eq!(s.round_finished(round(vec![], 1)), RoundEnd::QuotaReached);
}

#[test]
fn round_result_is_ignored_when_no_round_is_owed() {
    let mut s = AgentLoop::new();
    assert_eq!(s.round_finished(round(vec![Message::user("x".to_string())], 0)), RoundEnd::Ignored);
    assert_eq!(s.take_history(), vec![]);
    assert_eq!(s.phase(), LoopPhase::RequestPrompt);
    s.prompt(Some("a".to_string()));
    assert_eq!(s.prompt(Some("b".to_string())), LoopPhase::RunRound);
    assert_eq!(s.take_history(), vec![Message::user("a".to_string())]);
}

#[test]
fn failure_ends_the_run_with_the_same_error() {
    let mut s = AgentLoop::new();
    s.prompt(Some("go".to_string()));
    let error = Error::ToolsetError("tool broke".to_string());
    assert_eq!(s.round_failed(error.clone()), error);
    assert_eq!(s.phase(), LoopPhase::Failed);
    assert_eq!(s.prompt(Some("more".to_string())), LoopPhase::Failed);
    assert_eq!(s.round_finished(round(vec![], 0)), RoundEnd::Ignored);
    let mut t = AgentLoop::new();
    assert_eq!(t.round_failed(Error::BudgetExhausted), Error::BudgetExhausted);
    assert_eq!(t.phase(), LoopPhase::Failed);
}
