//! The agent and its rounds.
//!
//! A round refreshes what the providers expose, requests one completion,
//! invokes the tools that the model asks for and merges everything into the
//! history. The agent decides which providers are asked and what the history
//! becomes; the host talks to the providers and to the model.

use crate::api::{McpToolName, McpToolResult, McpToolResultView, TelemetryTarget};
use crate::completion_evaluated_prompt::CompletionEvaluatedPrompt;
use crate::mcp_server::McpServerConnection;
use crate::message::{
    assistant_turn, choice_view, history_view, tool_result_turn, AssistantContent,
    AssistantContentView, Message, MessageView, ToolCall, ToolCallView,
};
use crate::telemetry::TelemetryMode;
use crate::validation::{
    id_set, law_settled_cache_is_stable, CacheView, FetchRecord, ValidationCache,
};
use vstd::prelude::*;
use vstd::string::*;

verus! {

/// What one tool invocation gave back.
#[derive(Clone, Debug, PartialEq, Eq)]
pub struct ToolOutput {
    /// The output as text.
    pub text: String,
    /// What the text was recognised as.
    pub result: McpToolResult,
}

/// What a round hands back to the scheduler.
#[derive(Debug, PartialEq, Eq)]
pub struct CompletionResult {
    /// Entire message history.
    pub messages: Vec<Message>,
    /// The texts returned by the model, in order; possibly none.
    pub texts: Vec<String>,
    /// Number of tools invoked in the round.
    pub tools_used: usize,
    /// The places that the round's telemetry belongs to.
    pub telemetry_targets: Vec<TelemetryTarget>,
}

/// The tool calls among the items of `choice`, in order.
pub open spec fn tool_calls(choice: Seq<AssistantContentView>) -> Seq<ToolCallView>
    decreases choice.len(),
{
    if choice.len() == 0 {
        Seq::empty()
    } else {
        match choice.last() {
            AssistantContentView::ToolCall { call } => tool_calls(choice.drop_last()).push(call),
            _ => tool_calls(choice.drop_last()),
        }
    }
}

/// The texts among the items of `choice`, in order.
pub open spec fn choice_texts(choice: Seq<AssistantContentView>) -> Seq<Seq<char>>
    decreases choice.len(),
{
    if choice.len() == 0 {
        Seq::empty()
    } else {
        match choice.last() {
            AssistantContentView::Text { text } => choice_texts(choice.drop_last()).push(text),
            _ => choice_texts(choice.drop_last()),
        }
    }
}

/// The telemetry targets that one tool call yields: the sent message, where
/// the tool is the one that sends messages and its output reports success.
pub open spec fn call_targets(name: Seq<char>, result: McpToolResultView) -> Seq<
    (Seq<char>, Seq<char>),
> {
    if name == McpToolName::CoralSendMessage.spec_name() {
        match result {
            McpToolResultView::SendMessageSuccess { id, thread_id } => seq![(id, thread_id)],
            _ => Seq::empty(),
        }
    } else {
        Seq::empty()
    }
}

/// The telemetry targets of the first `n` tool calls, in order.
pub open spec fn round_targets(
    calls: Seq<ToolCallView>,
    results: Seq<McpToolResultView>,
    n: nat,
) -> Seq<(Seq<char>, Seq<char>)>
    decreases n,
{
    if n == 0 {
        Seq::empty()
    } else {
        round_targets(calls, results, (n - 1) as nat) + call_targets(
            calls[n - 1].name,
            results[n - 1],
        )
    }
}

/// The result turns of the first `n` tool calls, in order.
pub open spec fn tool_result_turns(
    calls: Seq<ToolCallView>,
    outputs: Seq<Seq<char>>,
    n: nat,
) -> Seq<MessageView> {
    Seq::new(n, |i: int| tool_result_turn(calls[i], outputs[i]))
}

/// The history after a round: the prior context, the prompt, one assistant
/// turn with everything the model returned, and one result turn per tool call.
pub open spec fn round_history(
    context: Seq<MessageView>,
    prompt: MessageView,
    choice: Seq<AssistantContentView>,
    outputs: Seq<Seq<char>>,
) -> Seq<MessageView> {
    context.push(prompt).push(assistant_turn(choice)) + tool_result_turns(
        tool_calls(choice),
        outputs,
        tool_calls(choice).len(),
    )
}

pub open spec fn output_texts(outputs: Seq<ToolOutput>) -> Seq<Seq<char>> {
    outputs.map_values(|o: ToolOutput| o.text@)
}

pub open spec fn output_results(outputs: Seq<ToolOutput>) -> Seq<McpToolResultView> {
    outputs.map_values(|o: ToolOutput| o.result@)
}

pub open spec fn texts_view(texts: Seq<String>) -> Seq<Seq<char>> {
    texts.map_values(|t: String| t@)
}

pub open spec fn targets_view(targets: Seq<TelemetryTarget>) -> Seq<(Seq<char>, Seq<char>)> {
    targets.map_values(|t: TelemetryTarget| t@)
}

pub open spec fn calls_view(calls: Seq<ToolCall>) -> Seq<ToolCallView> {
    calls.map_values(|c: ToolCall| c@)
}

/// Splits a history into the prior context and the turn that serves as the
/// immediate prompt: its last one.
pub fn split_prompt(messages: Vec<Message>) -> (parts: (Vec<Message>, Message))
    requires
        messages@.len() > 0,
    ensures
        parts.0@ == messages@.drop_last(),
        parts.1 == messages@.last(),
{
    let mut context = messages;
    let prompt = context.pop();
    (context, prompt.unwrap())
}

/// Gathers the places that telemetry can be attached to, given one tool call:
/// the name of the tool and what its output was recognised as.
pub fn find_telemetry_targets(name: &str, result: &McpToolResult) -> (targets: Vec<
    TelemetryTarget,
>)
    ensures
        targets_view(targets@) == call_targets(name@, result@),
{
    let mut targets: Vec<TelemetryTarget> = Vec::new();
    match McpToolName::parse(name) {
        Some(McpToolName::CoralSendMessage) => {
            match result {
                McpToolResult::SendMessageSuccess { message } => {
                    targets.push(
                        TelemetryTarget {
                            message_id: message.id.clone(),
                            thread_id: message.thread_id.clone(),
                        },
                    );
                },
                _ => {},
            }
        },
        None => {},
    }
    proof {
        assert(targets_view(targets@) =~= call_targets(name@, result@));
    }
    targets
}

/// Taking one more item of `s` either adds that item's contribution or none.
pub proof fn lemma_take_next<T>(s: Seq<T>, i: int)
    requires
        0 <= i < s.len(),
    ensures
        s.take(i + 1).drop_last() == s.take(i),
        s.take(i + 1).last() == s[i],
{
    assert(s.take(i + 1).drop_last() =~= s.take(i));
}

/// Pushing a turn onto a history pushes its view onto the history's view.
pub proof fn lemma_history_push(messages: Seq<Message>, turn: Message)
    ensures
        history_view(messages.push(turn)) == history_view(messages).push(turn@),
{
    assert(history_view(messages.push(turn)) =~= history_view(messages).push(turn@));
}

impl ToolCall {
    /// A copy of the call.
    pub fn duplicate(&self) -> (copy: ToolCall)
        ensures
            copy@ == self@,
    {
        ToolCall {
            id: self.id.clone(),
            call_id: crate::message::clone_opt_string(&self.call_id),
            name: self.name.clone(),
            arguments: self.arguments.clone(),
        }
    }
}

/// The tool calls that a completion asks for, in the order in which they are
/// to be invoked.
pub fn pending_tool_calls(choice: &Vec<AssistantContent>) -> (calls: Vec<ToolCall>)
    ensures
        calls_view(calls@) == tool_calls(choice_view(choice@)),
{
    let mut calls: Vec<ToolCall> = Vec::new();
    let mut i: usize = 0;
    while i < choice.len()
        invariant
            i <= choice.len(),
            calls_view(calls@) == tool_calls(choice_view(choice@).take(i as int)),
        decreases choice.len() - i,
    {
        proof {
            lemma_take_next(choice_view(choice@), i as int);
        }
        match &choice[i] {
            AssistantContent::ToolCall { call } => {
                let copy = call.duplicate();
                proof {
                    assert(calls_view(calls@.push(copy)) =~= calls_view(calls@).push(copy@));
                }
                calls.push(copy);
            },
            _ => {},
        }
        i += 1;
    }
    proof {
        assert(choice_view(choice@).take(choice@.len() as int) =~= choice_view(choice@));
    }
    calls
}

/// The texts that a completion holds, in order.
pub fn collect_texts(choice: &Vec<AssistantContent>) -> (texts: Vec<String>)
    ensures
        texts_view(texts@) == choice_texts(choice_view(choice@)),
{
    let mut texts: Vec<String> = Vec::new();
    let mut i: usize = 0;
    while i < choice.len()
        invariant
            i <= choice.len(),
            texts_view(texts@) == choice_texts(choice_view(choice@).take(i as int)),
        decreases choice.len() - i,
    {
        proof {
            lemma_take_next(choice_view(choice@), i as int);
        }
        match &choice[i] {
            AssistantContent::Text { text } => {
                let copy = text.clone();
                proof {
                    assert(texts_view(texts@.push(copy)) =~= texts_view(texts@).push(copy@));
                }
                texts.push(copy);
            },
            _ => {},
        }
        i += 1;
    }
    proof {
        assert(choice_view(choice@).take(choice@.len() as int) =~= choice_view(choice@));
    }
    texts
}

/// Folds one completion and the outputs of the tools it asked for into the
/// history.
///
/// `outputs` holds one output per tool call of `choice`, in the order of the
/// calls; where their number differs there is no result. The history grows
/// by the prompt, by one assistant turn that holds all of `choice`, and by
/// one result turn per tool call.
pub fn complete_round(
    context: Vec<Message>,
    prompt: Message,
    choice: Vec<AssistantContent>,
    outputs: &Vec<ToolOutput>,
) -> (done: Option<CompletionResult>)
    ensures
        done is Some <==> outputs@.len() == tool_calls(choice_view(choice@)).len(),
        done matches Some(r) ==> {
            &&& history_view(r.messages@) == round_history(
                history_view(context@),
                prompt@,
                choice_view(choice@),
                output_texts(outputs@),
            )
            &&& texts_view(r.texts@) == choice_texts(choice_view(choice@))
            &&& r.tools_used == tool_calls(choice_view(choice@)).len()
            &&& targets_view(r.telemetry_targets@) == round_targets(
                tool_calls(choice_view(choice@)),
                output_results(outputs@),
                tool_calls(choice_view(choice@)).len(),
            )
            &&& r.messages@.len() == context@.len() + 2 + r.tools_used
        },
{
    let calls = pending_tool_calls(&choice);
    if calls.len() != outputs.len() {
        return None;
    }
    let texts = collect_texts(&choice);
    let ghost base = history_view(context@).push(prompt@).push(
        assistant_turn(choice_view(choice@)),
    );
    let mut messages = context;
    proof {
        lemma_history_push(messages@, prompt);
    }
    messages.push(prompt);
    let turn = Message::assistant(choice);
    proof {
        lemma_history_push(messages@, turn);
    }
    messages.push(turn);
    let mut telemetry_targets: Vec<TelemetryTarget> = Vec::new();
    let mut j: usize = 0;
    proof {
        assert(history_view(messages@) =~= base + tool_result_turns(
            calls_view(calls@),
            output_texts(outputs@),
            0,
        ));
        assert(targets_view(telemetry_targets@) =~= round_targets(
            calls_view(calls@),
            output_results(outputs@),
            0,
        ));
    }
    while j < calls.len()
        invariant
            j <= calls.len(),
            calls.len() == outputs.len(),
            messages@.len() == context@.len() + 2 + j,
            history_view(messages@) == base + tool_result_turns(
                calls_view(calls@),
                output_texts(outputs@),
                j as nat,
            ),
            targets_view(telemetry_targets@) == round_targets(
                calls_view(calls@),
                output_results(outputs@),
                j as nat,
            ),
        decreases calls.len() - j,
    {
        let call = &calls[j];
        let output = &outputs[j];
        let mut found = find_telemetry_targets(call.name.as_str(), &output.result);
        let result_turn = Message::tool_result(call, output.text.clone());
        proof {
            lemma_history_push(messages@, result_turn);
            assert(tool_result_turns(
                calls_view(calls@),
                output_texts(outputs@),
                (j + 1) as nat,
            ) =~= tool_result_turns(calls_view(calls@), output_texts(outputs@), j as nat).push(
                result_turn@,
            ));
            assert(targets_view(telemetry_targets@ + found@) =~= targets_view(telemetry_targets@)
                + targets_view(found@));
        }
        messages.push(result_turn);
        telemetry_targets.append(&mut found);
        j += 1;
    }
    Some(CompletionResult { messages, texts, tools_used: calls.len(), telemetry_targets })
}

/// The engine's side of an agent: the connections with their validation
/// state, the merged tool set and the merged resource set, and what the
/// rounds need to know about telemetry and the preamble.
pub struct Agent<S> {
    mcp_connections: Vec<McpServerConnection<S>>,
    tooling: ValidationCache,
    resources: ValidationCache,
    agent_name: String,
    agent_version: String,
    telemetry: TelemetryMode,
    telemetry_url: String,
    telemetry_session_id: String,
    telemetry_model_description: String,
    preamble: Option<CompletionEvaluatedPrompt<S>>,
}

/// The mathematical content of an agent. The connections and the preamble
/// are held as they are, each with the session behind it.
pub struct AgentView<S> {
    pub connections: Seq<McpServerConnection<S>>,
    pub tooling: CacheView,
    pub resources: CacheView,
    pub agent_name: Seq<char>,
    pub agent_version: Seq<char>,
    pub telemetry: TelemetryMode,
    pub telemetry_url: Seq<char>,
    pub telemetry_session_id: Seq<char>,
    pub telemetry_model_description: Seq<char>,
    pub preamble: Option<CompletionEvaluatedPrompt<S>>,
}

impl<S> AgentView<S> {
    /// Both caches are well formed and hold, connection by connection, the
    /// policies that the connections were registered with.
    pub open spec fn wf(self) -> bool {
        &&& self.tooling.wf()
        &&& self.resources.wf()
        &&& self.tooling.connections.len() == self.connections.len()
        &&& self.resources.connections.len() == self.connections.len()
        &&& forall|i: int|
            0 <= i < self.connections.len() ==> {
                &&& (#[trigger] self.tooling.connections[i]).skip
                    == self.connections[i]@.skip_tooling
                &&& self.tooling.connections[i].revalidate
                    == self.connections[i]@.revalidate_tooling
            }
        &&& forall|i: int|
            0 <= i < self.connections.len() ==> {
                &&& (#[trigger] self.resources.connections[i]).skip
                    == self.connections[i]@.skip_resources
                &&& self.resources.connections[i].revalidate
                    == self.connections[i]@.revalidate_resources
            }
    }

    /// A report is due for a round that found `targets`: there is one to
    /// attach it to, and telemetry is switched on.
    pub open spec fn telemetry_due(self, targets: nat) -> bool {
        targets != 0 && self.telemetry != TelemetryMode::Disabled
    }
}

/// The tools of a connection whose tooling is skipped are never fetched, and
/// recording a list for it exposes nothing.
pub proof fn law_skipped_tooling_is_never_exposed<S>(
    a: AgentView<S>,
    i: usize,
    names: Set<Seq<char>>,
)
    requires
        a.wf(),
        0 <= i < a.connections.len(),
        a.connections[i as int]@.skip_tooling,
    ensures
        !a.tooling.needs_fetch(i as int),
        a.tooling.record(i, names) == a.tooling,
        forall|name: Seq<char>| #[trigger]
            a.tooling.exposes(name) ==> a.tooling.entries[name] != i,
{
    assert(a.tooling.connections[i as int].skip);
}

/// The resources of a connection whose resources are skipped are never
/// listed, and recording a list for it exposes nothing.
pub proof fn law_skipped_resources_are_never_exposed<S>(
    a: AgentView<S>,
    i: usize,
    ids: Set<Seq<char>>,
)
    requires
        a.wf(),
        0 <= i < a.connections.len(),
        a.connections[i as int]@.skip_resources,
    ensures
        !a.resources.needs_fetch(i as int),
        a.resources.record(i, ids) == a.resources,
        forall|id: Seq<char>| #[trigger]
            a.resources.exposes(id) ==> a.resources.entries[id] != i,
{
    assert(a.resources.connections[i as int].skip);
}

impl<S> View for Agent<S> {
    type V = AgentView<S>;

    closed spec fn view(&self) -> AgentView<S> {
        AgentView {
            connections: self.mcp_connections@,
            tooling: self.tooling@,
            resources: self.resources@,
            agent_name: self.agent_name@,
            agent_version: self.agent_version@,
            telemetry: self.telemetry,
            telemetry_url: self.telemetry_url@,
            telemetry_session_id: self.telemetry_session_id@,
            telemetry_model_description: self.telemetry_model_description@,
            preamble: self.preamble,
        }
    }
}

/// The positions among the first `n` connections that a cache must fetch.
pub open spec fn fetch_plan(cache: CacheView, n: nat) -> Seq<usize>
    decreases n,
{
    if n == 0 {
        Seq::empty()
    } else if cache.needs_fetch(n - 1) {
        fetch_plan(cache, (n - 1) as nat).push((n - 1) as usize)
    } else {
        fetch_plan(cache, (n - 1) as nat)
    }
}

/// Every connection that a plan names is among the first `n` and needs a
/// fetch.
pub proof fn lemma_fetch_plan_members(cache: CacheView, n: nat, k: int)
    requires
        n <= usize::MAX,
        0 <= k < fetch_plan(cache, n).len(),
    ensures
        fetch_plan(cache, n)[k] < n,
        cache.needs_fetch(fetch_plan(cache, n)[k] as int),
    decreases n,
{
    if n > 0 {
        let shorter = fetch_plan(cache, (n - 1) as nat);
        if k < shorter.len() {
            lemma_fetch_plan_members(cache, (n - 1) as nat, k);
        }
    }
}

/// The start of a refresh cycle passes over a skipped connection, whatever
/// its other flags hold: the connection stays as it is, and no fetch is
/// planned for it.
pub proof fn law_refresh_passes_over_skipped_connection(cache: CacheView, n: nat, i: usize)
    requires
        n <= usize::MAX,
        i < cache.connections.len(),
        cache.connections[i as int].skip,
    ensures
        cache.begin().connections[i as int] == cache.connections[i as int],
        forall|k: int|
            0 <= k < fetch_plan(cache.begin(), n).len() ==> #[trigger] fetch_plan(
                cache.begin(),
                n,
            )[k] != i,
{
    assert forall|k: int| 0 <= k < fetch_plan(cache.begin(), n).len() implies #[trigger] fetch_plan(
        cache.begin(),
        n,
    )[k] != i by {
        lemma_fetch_plan_members(cache.begin(), n, k);
    }
}

/// A refresh in a row changes nothing: where nothing is pending and every
/// connection is skipped or validated without revalidating, the start of a
/// cycle leaves the cache as it is and plans no fetch.
pub proof fn law_settled_refresh_changes_nothing(cache: CacheView, n: nat)
    requires
        cache.settled(),
        n <= usize::MAX,
    ensures
        cache.begin() == cache,
        fetch_plan(cache.begin(), n) == Seq::<usize>::empty(),
{
    law_settled_cache_is_stable(cache, Seq::empty());
    if fetch_plan(cache, n).len() > 0 {
        lemma_fetch_plan_members(cache, n, 0);
        assert(false);
    }
    assert(fetch_plan(cache, n) =~= Seq::<usize>::empty());
}

/// The connections that `cache` must fetch in this cycle, ascending.
fn plan_fetches(cache: &ValidationCache) -> (plan: Vec<usize>)
    ensures
        plan@ == fetch_plan(cache@, cache@.connections.len()),
{
    let mut plan: Vec<usize> = Vec::new();
    let n = cache.connection_count();
    let mut i: usize = 0;
    while i < n
        invariant
            i <= n,
            n == cache@.connections.len(),
            plan@ == fetch_plan(cache@, i as nat),
        decreases n - i,
    {
        if cache.needs_fetch(i) {
            plan.push(i);
        }
        i += 1;
    }
    plan
}

/// What the start of a refresh cycle asks of the host.
pub struct Refresh {
    /// Identifiers to remove from the live set.
    pub evicted: Vec<String>,
    /// The connections whose list is to be fetched, ascending.
    pub fetch: Vec<usize>,
}

impl<S> Agent<S> {
    /// The agent is well formed.
    pub open spec fn wf(&self) -> bool {
        self@.wf()
    }

    /// Creates an agent without connections, without preamble and with
    /// telemetry switched off.
    pub fn new(agent_name: String, agent_version: String) -> (agent: Self)
        ensures
            agent.wf(),
            agent@ == (AgentView::<S> {
                connections: Seq::empty(),
                tooling: CacheView::empty(),
                resources: CacheView::empty(),
                agent_name: agent_name@,
                agent_version: agent_version@,
                telemetry: TelemetryMode::Disabled,
                telemetry_url: Seq::empty(),
                telemetry_session_id: Seq::empty(),
                telemetry_model_description: Seq::empty(),
                preamble: None,
            }),
    {
        let agent = Self {
            mcp_connections: Vec::new(),
            tooling: ValidationCache::new(),
            resources: ValidationCache::new(),
            agent_name,
            agent_version,
            telemetry: TelemetryMode::Disabled,
            telemetry_url: String::new(),
            telemetry_session_id: String::new(),
            telemetry_model_description: String::new(),
            preamble: None,
        };
        agent
    }

    /// Agent name. Used to identify this agent to providers.
    pub fn agent_name(self, name: String) -> (agent: Self)
        ensures
            agent@ == (AgentView { agent_name: name@, ..self@ }),
    {
        let mut agent = self;
        agent.agent_name = name;
        agent
    }

    /// Agent version. Used to identify this agent to providers.
    pub fn agent_version(self, version: String) -> (agent: Self)
        ensures
            agent@ == (AgentView { agent_version: version@, ..self@ }),
    {
        let mut agent = self;
        agent.agent_version = version;
        agent
    }

    /// Adds a provider to the agent: the connection itself, with the session
    /// behind it, comes last among the connections. Its tools and resources
    /// are validated before completion requests are made, as its policies
    /// ask.
    pub fn mcp_server(self, connection: McpServerConnection<S>) -> (agent: Self)
        requires
            self.wf(),
        ensures
            agent.wf(),
            agent@ == (AgentView {
                connections: self@.connections.push(connection),
                tooling: self@.tooling.register(
                    connection@.skip_tooling,
                    connection@.revalidate_tooling,
                ),
                resources: self@.resources.register(
                    connection@.skip_resources,
                    connection@.revalidate_resources,
                ),
                ..self@
            }),
    {
        let mut agent = self;
        agent.tooling.register(connection.skip_tooling(), connection.revalidate_tooling());
        agent.resources.register(connection.skip_resources(), connection.revalidate_resources());
        agent.mcp_connections.push(connection);
        agent
    }

    /// Sets the preamble of this agent. It is evaluated anew before each
    /// completion request.
    pub fn preamble(self, preamble: CompletionEvaluatedPrompt<S>) -> (agent: Self)
        ensures
            agent@ == (AgentView { preamble: Some(preamble), ..self@ }),
    {
        let mut agent = self;
        agent.preamble = Some(preamble);
        agent
    }

    /// Sets the telemetry mode of this agent, with the address and the
    /// session that reports go to.
    pub fn telemetry(
        self,
        telemetry: TelemetryMode,
        model_description: String,
        telemetry_url: String,
        telemetry_session_id: String,
    ) -> (agent: Self)
        ensures
            agent@ == (AgentView {
                telemetry,
                telemetry_url: telemetry_url@,
                telemetry_session_id: telemetry_session_id@,
                telemetry_model_description: model_description@,
                ..self@
            }),
    {
        let mut agent = self;
        agent.telemetry = telemetry;
        agent.telemetry_url = telemetry_url;
        agent.telemetry_session_id = telemetry_session_id;
        agent.telemetry_model_description = model_description;
        agent
    }

    /// The name of the agent.
    pub fn name(&self) -> (name: &String)
        ensures
            name@ == self@.agent_name,
    {
        &self.agent_name
    }

    /// The version of the agent.
    pub fn version(&self) -> (version: &String)
        ensures
            version@ == self@.agent_version,
    {
        &self.agent_version
    }

    /// The connections of the agent, in the order in which they were added.
    pub fn connections(&self) -> (connections: &Vec<McpServerConnection<S>>)
        ensures
            connections@ == self@.connections,
    {
        &self.mcp_connections
    }

    /// The preamble, where one was set.
    pub fn preamble_prompt(&self) -> (preamble: &Option<CompletionEvaluatedPrompt<S>>)
        ensures
            *preamble == self@.preamble,
    {
        &self.preamble
    }

    /// The telemetry mode.
    pub fn telemetry_mode(&self) -> (mode: TelemetryMode)
        ensures
            mode == self@.telemetry,
    {
        self.telemetry
    }

    /// The address that reports go to.
    pub fn telemetry_url(&self) -> (url: &String)
        ensures
            url@ == self@.telemetry_url,
    {
        &self.telemetry_url
    }

    /// The session that reports are made for.
    pub fn telemetry_session_id(&self) -> (id: &String)
        ensures
            id@ == self@.telemetry_session_id,
    {
        &self.telemetry_session_id
    }

    /// The description of the model that reports carry.
    pub fn telemetry_model_description(&self) -> (description: &String)
        ensures
            description@ == self@.telemetry_model_description,
    {
        &self.telemetry_model_description
    }

    /// Whether the merged tool set holds a tool of this name.
    pub fn exposes_tool(&self, name: &str) -> (found: bool)
        ensures
            found == self@.tooling.exposes(name@),
    {
        self.tooling.exposes(name)
    }

    /// Whether the merged resource set holds a resource of this address.
    pub fn exposes_resource(&self, uri: &str) -> (found: bool)
        ensures
            found == self@.resources.exposes(uri@),
    {
        self.resources.exposes(uri)
    }

    /// Begins the round's validation of tools: evicts the tools of the
    /// connections that revalidate, and says which connections are to be
    /// asked for their tools: all but those that are skipped and those that
    /// are validated and do not revalidate.
    pub fn validate_mcp_tooling(&mut self) -> (refresh: Refresh)
        requires
            old(self).wf(),
        ensures
            final(self).wf(),
            final(self)@ == (AgentView { tooling: old(self)@.tooling.begin(), ..old(self)@ }),
            id_set(refresh.evicted@) == old(self)@.tooling.pending,
            refresh.fetch@ == fetch_plan(
                old(self)@.tooling.begin(),
                old(self)@.connections.len(),
            ),
    {
        let evicted = self.tooling.begin_cycle();
        let fetch = plan_fetches(&self.tooling);
        Refresh { evicted, fetch }
    }

    /// Records the tools that connection `i` lists, by name.
    pub fn record_tools(&mut self, i: usize, names: &Vec<String>) -> (outcome: FetchRecord)
        requires
            old(self).wf(),
        ensures
            final(self).wf(),
            final(self)@ == (AgentView {
                tooling: old(self)@.tooling.record(i, id_set(names@)),
                ..old(self)@
            }),
            outcome == if !old(self)@.tooling.needs_fetch(i as int) {
                FetchRecord::Ignored
            } else if old(self)@.tooling.connections[i as int].seen {
                FetchRecord::Refresh
            } else {
                FetchRecord::FirstValidation
            },
    {
        self.tooling.record_fetch(i, names)
    }

    /// Begins the round's validation of resources, as `validate_mcp_tooling`
    /// does for tools.
    pub fn validate_mcp_resources(&mut self) -> (refresh: Refresh)
        requires
            old(self).wf(),
        ensures
            final(self).wf(),
            final(self)@ == (AgentView { resources: old(self)@.resources.begin(), ..old(self)@ }),
            id_set(refresh.evicted@) == old(self)@.resources.pending,
            refresh.fetch@ == fetch_plan(
                old(self)@.resources.begin(),
                old(self)@.connections.len(),
            ),
    {
        let evicted = self.resources.begin_cycle();
        let fetch = plan_fetches(&self.resources);
        Refresh { evicted, fetch }
    }

    /// Records the resources that connection `i` lists, by address.
    pub fn record_resources(&mut self, i: usize, uris: &Vec<String>) -> (outcome: FetchRecord)
        requires
            old(self).wf(),
        ensures
            final(self).wf(),
            final(self)@ == (AgentView {
                resources: old(self)@.resources.record(i, id_set(uris@)),
                ..old(self)@
            }),
            outcome == if !old(self)@.resources.needs_fetch(i as int) {
                FetchRecord::Ignored
            } else if old(self)@.resources.connections[i as int].seen {
                FetchRecord::Refresh
            } else {
                FetchRecord::FirstValidation
            },
    {
        self.resources.record_fetch(i, uris)
    }

    /// Completes the round: folds the completion and the outputs of the
    /// tools it asked for into the history, as `complete_round` does.
    pub fn run_completion(
        &self,
        context: Vec<Message>,
        prompt: Message,
        choice: Vec<AssistantContent>,
        outputs: &Vec<ToolOutput>,
    ) -> (done: Option<CompletionResult>)
        ensures
            done is Some <==> outputs@.len() == tool_calls(choice_view(choice@)).len(),
            done matches Some(r) ==> {
                &&& history_view(r.messages@) == round_history(
                    history_view(context@),
                    prompt@,
                    choice_view(choice@),
                    output_texts(outputs@),
                )
                &&& texts_view(r.texts@) == choice_texts(choice_view(choice@))
                &&& r.tools_used == tool_calls(choice_view(choice@)).len()
                &&& targets_view(r.telemetry_targets@) == round_targets(
                    tool_calls(choice_view(choice@)),
                    output_results(outputs@),
                    tool_calls(choice_view(choice@)).len(),
                )
                &&& r.messages@.len() == context@.len() + 2 + r.tools_used
            },
    {
        complete_round(context, prompt, choice, outputs)
    }

    /// Whether a report is to be sent for a round with this result.
    pub fn telemetry_due(&self, result: &CompletionResult) -> (due: bool)
        ensures
            due == self@.telemetry_due(result.telemetry_targets@.len()),
    {
        result.telemetry_targets.len() != 0 && self.telemetry != TelemetryMode::Disabled
    }
}

} // verus!
