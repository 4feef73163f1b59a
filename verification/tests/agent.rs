use coral_rs::agent::{
    collect_texts, complete_round, find_telemetry_targets, pending_tool_calls, split_prompt, Agent,
    CompletionResult, ToolOutput,
};
use coral_rs::api::{McpToolResult, SentMessage, TelemetryTarget};
use coral_rs::completion_evaluated_prompt::CompletionEvaluatedPrompt;
use coral_rs::mcp_server::{McpConnectionBuilder, McpServerConnection};
use coral_rs::message::{AssistantContent, Message, ToolCall, ToolResultContent, UserContent};
use coral_rs::telemetry::TelemetryMode;
use coral_rs::validation::FetchRecord;

fn text(t: &str) -> AssistantContent {
    AssistantContent::Text { text: t.to_string() }
}

fn call(id: &str, call_id: Option<&str>, name: &str, arguments: &str) -> AssistantContent {
    AssistantContent::ToolCall {
        call: ToolCall {
            id: id.to_string(),
            call_id: call_id.map(|c| c.to_string()),
            name: name.to_string(),
            arguments: arguments.to_string(),
        },
    }
}

fn output(t: &str) -> ToolOutput {
    ToolOutput { text: t.to_string(), result: McpToolResult::Other }
}

fn sent(t: &str, id: &str, thread: &str) -> ToolOutput {
    ToolOutput {
        text: t.to_string(),
        result: McpToolResult::SendMessageSuccess {
            message: SentMessage { id: id.to_string(), thread_id: thread.to_string() },
        },
    }
}

fn result_turn(id: &str, call_id: Option<&str>, t: &str) -> Message {
    Message::User {
        content: vec![UserContent::ToolResult {
            id: id.to_string(),
            call_id: call_id.map(|c| c.to_string()),
            content: vec![ToolResultContent::Text { text: t.to_string() }],
        }],
    }
}

fn connection(id: &str, revalidate: bool, skip: bool) -> McpServerConnection<u8> {
    McpConnectionBuilder::sse(id.to_string())
        .revalidate_tooling(revalidate)
        .skip_tooling(skip)
        .connected(0u8)
}

fn names(list: &[&str]) -> Vec<String> {
    list.iter().map(|s| s.to_string()).collect()
}

fn sorted(mut v: Vec<String>) -> Vec<String> {
    v.sort();
    v
}

#[test]
fn prompt_is_the_last_turn() {
    let a = Message::user("a".to_string());
    let b = Message::user("b".to_string());
    let (context, prompt) = split_prompt(vec![a.clone(), b.clone()]);
    assert_eq!(context, vec![a]);
    assert_eq!(prompt, b);
    let (context, prompt) = split_prompt(vec![b.clone()]);
    assert_eq!(context, vec![]);
    assert_eq!(prompt, b);
}

#[test]
fn tool_calls_and_texts_are_picked_in_order() {
    let choice = vec![
        text("one"),
        call("c1", None, "alpha", "{}"),
        AssistantContent::Opaque { payload: "thinking".to_string() },
        text("two"),
        call("c2", Some("x"), "beta", "{\"k\":1}"),
    ];
    let calls = pending_tool_calls(&choice);
    assert_eq!(calls.len(), 2);
    assert_eq!(calls[0].name, "alpha");
    assert_eq!(calls[0].arguments, "{}");
    assert_eq!(calls[1].name, "beta");
    assert_eq!(calls[1].call_id, Some("x".to_string()));
    assert_eq!(collect_texts(&choice), vec!["one".to_string(), "two".to_string()]);
    assert_eq!(pending_tool_calls(&vec![]), vec![]);
    assert_eq!(collect_texts(&vec![]), Vec::<String>::new());
}

#[test]
fn round_with_two_tool_calls_then_text_only() {
    // Round 1: the model asks for two tools.
    let prompt = Message::user("do it".to_string());
    let choice = vec![call("c1", None, "alpha", "{}"), call("c2", Some("id2"), "beta", "[]")];
    let outputs = vec![output("first"), output("second")];
    let first = complete_round(vec![], prompt.clone(), choice.clone(), &outputs).unwrap();
    assert_eq!(first.tools_used, 2);
    assert_eq!(first.texts, Vec::<String>::new());
    assert_eq!(
        first.messages,
        vec![
            prompt.clone(),
            Message::Assistant { id: None, content: choice },
            result_turn("c1", None, "first"),
            result_turn("c2", Some("id2"), "second"),
        ]
    );
    // Round 2: the model answers with text alone.
    let (context, last) = split_prompt(first.messages);
    let second = complete_round(context, last, vec![text("done")], &vec![]).unwrap();
    assert_eq!(second.tools_used, 0);
    assert_eq!(second.texts, vec!["done".to_string()]);
    assert_eq!(second.messages.len(), 5);
    assert_eq!(second.messages[4], Message::Assistant { id: None, content: vec![text("done")] });
    assert_eq!(second.messages[3], result_turn("c2", Some("id2"), "second"));
}

#[test]
fn history_grows_by_two_and_one_per_tool_call() {
    let context = vec![Message::user("a".to_string()), Message::user("b".to_string())];
    for k in 0..5usize {
        let mut choice = vec![text("t")];
        let mut outputs = Vec::new();
        for i in 0..k {
            choice.push(call(&format!("c{i}"), None, "tool", "{}"));
            outputs.push(output("o"));
        }
        let prompt = Message::user("p".to_string());
        let done = complete_round(context.clone(), prompt, choice, &outputs).unwrap();
        assert_eq!(done.messages.len(), context.len() + 2 + k);
        assert_eq!(done.tools_used, k);
    }
}

#[test]
fn round_needs_one_output_per_tool_call() {
    let prompt = Message::user("p".to_string());
    let choice = vec![call("c1", None, "alpha", "{}")];
    assert_eq!(complete_round(vec![], prompt.clone(), choice.clone(), &vec![]), None);
    assert_eq!(
        complete_round(vec![], prompt.clone(), choice, &vec![output("a"), output("b")]),
        None
    );
    assert_eq!(complete_round(vec![], prompt, vec![text("t")], &vec![output("a")]), None);
}

#[test]
fn other_content_is_kept_and_ignored() {
    let prompt = Message::user("p".to_string());
    let choice = vec![AssistantContent::Opaque { payload: "reasoning".to_string() }];
    let done = complete_round(vec![], prompt.clone(), choice.clone(), &vec![]).unwrap();
    assert_eq!(done.tools_used, 0);
    assert_eq!(done.texts, Vec::<String>::new());
    assert_eq!(done.messages, vec![prompt, Message::Assistant { id: None, content: choice }]);
    assert_eq!(done.telemetry_targets, vec![]);
}

#[test]
fn sent_message_becomes_a_telemetry_target() {
    let found = find_telemetry_targets(
        "coral_send_message",
        &McpToolResult::SendMessageSuccess {
            message: SentMessage { id: "m1".to_string(), thread_id: "t1".to_string() },
        },
    );
    assert_eq!(
        found,
        vec![TelemetryTarget { message_id: "m1".to_string(), thread_id: "t1".to_string() }]
    );
}

#[test]
fn other_tools_and_other_outputs_give_no_target() {
    let success = McpToolResult::SendMessageSuccess {
        message: SentMessage { id: "m1".to_string(), thread_id: "t1".to_string() },
    };
    assert_eq!(find_telemetry_targets("coral_create_thread", &success), vec![]);
    assert_eq!(find_telemetry_targets("", &success), vec![]);
    assert_eq!(find_telemetry_targets("coral_send_message", &McpToolResult::Other), vec![]);
    assert_eq!(find_telemetry_targets("coral_send_message", &McpToolResult::Unreadable), vec![]);
}

#[test]
fn round_collects_targets_in_call_order() {
    let prompt = Message::user("p".to_string());
    let choice = vec![
        call("c1", None, "coral_send_message", "{}"),
        call("c2", None, "other", "{}"),
        call("c3", None, "coral_send_message", "{}"),
        call("c4", None, "coral_send_message", "{}"),
    ];
    let outputs = vec![
        sent("a", "m1", "t1"),
        sent("b", "m2", "t2"),
        ToolOutput { text: "c".to_string(), result: McpToolResult::Unreadable },
        sent("d", "m4", "t4"),
    ];
    let done = complete_round(vec![], prompt, choice, &outputs).unwrap();
    assert_eq!(
        done.telemetry_targets,
        vec![
            TelemetryTarget { message_id: "m1".to_string(), thread_id: "t1".to_string() },
            TelemetryTarget { message_id: "m4".to_string(), thread_id: "t4".to_string() },
        ]
    );
    assert_eq!(done.tools_used, 4);
}

#[test]
fn new_agent_is_empty() {
    let agent: Agent<u8> = Agent::new("coral-rs".to_string(), "0.1.0".to_string());
    assert_eq!(agent.name(), "coral-rs");
    assert_eq!(agent.version(), "0.1.0");
    assert_eq!(agent.connections().len(), 0);
    assert!(agent.preamble_prompt().is_none());
    assert_eq!(agent.telemetry_mode(), TelemetryMode::Disabled);
    assert_eq!(agent.telemetry_url(), "");
    assert_eq!(agent.telemetry_session_id(), "");
    assert_eq!(agent.telemetry_model_description(), "");
}

#[test]
fn agent_builders_set_their_fields() {
    let agent: Agent<u8> = Agent::new("a".to_string(), "1".to_string())
        .agent_name("b".to_string())
        .agent_version("2".to_string())
        .preamble(CompletionEvaluatedPrompt::from_string("be kind".to_string()))
        .telemetry(
            TelemetryMode::Generic,
            "model".to_string(),
            "http://api".to_string(),
            "sid".to_string(),
        )
        .mcp_server(connection("one", false, false));
    assert_eq!(agent.name(), "b");
    assert_eq!(agent.version(), "2");
    assert_eq!(agent.telemetry_mode(), TelemetryMode::Generic);
    assert_eq!(agent.telemetry_url(), "http://api");
    assert_eq!(agent.telemetry_session_id(), "sid");
    assert_eq!(agent.telemetry_model_description(), "model");
    assert_eq!(agent.connections().len(), 1);
    assert_eq!(agent.connections()[0].identifier(), "one");
    assert_eq!(agent.preamble_prompt().as_ref().unwrap().parts.len(), 1);
}

#[test]
fn tools_are_validated_once_unless_they_revalidate() {
    let mut agent: Agent<u8> = Agent::new("a".to_string(), "1".to_string())
        .mcp_server(connection("once", false, false))
        .mcp_server(connection("always", true, false))
        .mcp_server(connection("never", false, true));
    // Round 1: both active connections are asked.
    let refresh = agent.validate_mcp_tooling();
    assert_eq!(refresh.evicted, Vec::<String>::new());
    assert_eq!(refresh.fetch, vec![0, 1]);
    assert_eq!(agent.record_tools(0, &names(&["a", "b"])), FetchRecord::FirstValidation);
    assert_eq!(agent.record_tools(1, &names(&["x", "y"])), FetchRecord::FirstValidation);
    assert_eq!(agent.record_tools(2, &names(&["hidden"])), FetchRecord::Ignored);
    assert!(agent.exposes_tool("a") && agent.exposes_tool("b"));
    assert!(agent.exposes_tool("x") && agent.exposes_tool("y"));
    assert!(!agent.exposes_tool("hidden"));
    // Round 2: the revalidating connection's tools are evicted; it alone is asked.
    let refresh = agent.validate_mcp_tooling();
    assert_eq!(sorted(refresh.evicted), names(&["x", "y"]));
    assert_eq!(refresh.fetch, vec![1]);
    assert!(agent.exposes_tool("a") && agent.exposes_tool("b"));
    assert!(!agent.exposes_tool("x") && !agent.exposes_tool("y"));
    assert_eq!(agent.record_tools(0, &names(&["late"])), FetchRecord::Ignored);
    assert!(!agent.exposes_tool("late"));
    // The connection was discovered in round 1: its new list is a refresh.
    assert_eq!(agent.record_tools(1, &names(&["y", "z"])), FetchRecord::Refresh);
    assert!(!agent.exposes_tool("x"));
    assert!(agent.exposes_tool("y") && agent.exposes_tool("z"));
    // Round 3: what round 2 exposed is evicted in turn.
    let refresh = agent.validate_mcp_tooling();
    assert_eq!(sorted(refresh.evicted), names(&["y", "z"]));
    assert!(!agent.exposes_tool("y") && !agent.exposes_tool("z"));
    assert!(agent.exposes_tool("a"));
}

#[test]
fn resources_are_validated_apart_from_tools() {
    let conn = McpConnectionBuilder::sse("c".to_string())
        .skip_tooling(true)
        .revalidate_resources(true)
        .connected(0u8);
    let mut agent: Agent<u8> = Agent::new("a".to_string(), "1".to_string()).mcp_server(conn);
    assert_eq!(agent.validate_mcp_tooling().fetch, Vec::<usize>::new());
    let refresh = agent.validate_mcp_resources();
    assert_eq!(refresh.fetch, vec![0]);
    assert_eq!(agent.record_resources(0, &names(&["coral://state"])), FetchRecord::FirstValidation);
    assert!(agent.exposes_resource("coral://state"));
    assert!(!agent.exposes_tool("coral://state"));
    let refresh = agent.validate_mcp_resources();
    assert_eq!(refresh.evicted, names(&["coral://state"]));
    assert!(!agent.exposes_resource("coral://state"));
}

#[test]
fn telemetry_is_due_with_targets_and_a_mode() {
    let with_target = CompletionResult {
        messages: vec![],
        texts: vec![],
        tools_used: 1,
        telemetry_targets: vec![TelemetryTarget {
            message_id: "m".to_string(),
            thread_id: "t".to_string(),
        }],
    };
    let without = CompletionResult {
        messages: vec![],
        texts: vec![],
        tools_used: 1,
        telemetry_targets: vec![],
    };
    let off: Agent<u8> = Agent::new("a".to_string(), "1".to_string());
    assert!(!off.telemetry_due(&with_target));
    let on: Agent<u8> = Agent::new("a".to_string(), "1".to_string()).telemetry(
        TelemetryMode::OpenAI,
        "m".to_string(),
        "u".to_string(),
        "s".to_string(),
    );
    assert!(on.telemetry_due(&with_target));
    assert!(!on.telemetry_due(&without));
}

#[test]
fn agent_round_is_the_round() {
    let agent: Agent<u8> = Agent::new("a".to_string(), "1".to_string());
    let prompt = Message::user("p".to_string());
    let choice = vec![call("c1", None, "alpha", "{}"), text("t")];
    let outputs = vec![output("o")];
    let done = agent.run_completion(vec![], prompt.clone(), choice.clone(), &outputs);
    assert_eq!(done, complete_round(vec![], prompt, choice, &outputs));
    assert_eq!(done.unwrap().tools_used, 1);
}

#[test]
fn second_refresh_in_a_row_changes_nothing() {
    let mut agent: Agent<u8> = Agent::new("a".to_string(), "1".to_string())
        .mcp_server(connection("once", false, false))
        .mcp_server(connection("never", false, true));
    let refresh = agent.validate_mcp_tooling();
    assert_eq!(refresh.fetch, vec![0]);
    assert_eq!(agent.record_tools(0, &names(&["a"])), FetchRecord::FirstValidation);
    for _ in 0..2 {
        let refresh = agent.validate_mcp_tooling();
        assert_eq!(refresh.evicted, Vec::<String>::new());
        assert_eq!(refresh.fetch, Vec::<usize>::new());
        assert!(agent.exposes_tool("a"));
        assert_eq!(agent.record_tools(0, &names(&["b"])), FetchRecord::Ignored);
        assert_eq!(agent.record_tools(1, &names(&["c"])), FetchRecord::Ignored);
        assert!(!agent.exposes_tool("b") && !agent.exposes_tool("c"));
    }
}

#[test]
fn skipped_and_revalidating_connection_is_never_asked() {
    let mut agent: Agent<u8> = Agent::new("a".to_string(), "1".to_string())
        .mcp_server(connection("both", true, true));
    for _ in 0..3 {
        let refresh = agent.validate_mcp_tooling();
        assert_eq!(refresh.evicted, Vec::<String>::new());
        assert_eq!(refresh.fetch, Vec::<usize>::new());
        assert_eq!(agent.record_tools(0, &names(&["t"])), FetchRecord::Ignored);
        assert!(!agent.exposes_tool("t"));
    }
}
