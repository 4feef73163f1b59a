//! The iteration scheduler: which step the engine owes next.
//!
//! The scheduler asks for a prompt, has rounds run on it until a round uses
//! no tool or the quota of tool iterations is reached, and asks for the next
//! prompt; it ends when the source of prompts does, or with the first error.
//! It runs nothing itself: the host performs each step and reports back.

use crate::agent::CompletionResult;
use crate::error::Error;
use crate::message::{history_view, user_text_turn, Message, MessageView};
use vstd::prelude::*;
use vstd::string::*;

verus! {

/// The most rounds that one prompt gets by default.
pub const DEFAULT_ITERATION_TOOL_QUOTA: u32 = 64;

/// Where the scheduler stands.
#[derive(Clone, Copy, Debug, PartialEq, Eq, Structural)]
pub enum LoopPhase {
    /// The next prompt is to be requested from its source.
    RequestPrompt,
    /// A round is to be run on the history.
    RunRound,
    /// The source of prompts has ended; the run succeeded.
    Terminated,
    /// A round failed; the run ended with its error.
    Failed,
}

/// How a round left the scheduler.
#[derive(Clone, Copy, Debug, PartialEq, Eq, Structural)]
pub enum RoundEnd {
    /// No round was owed; nothing changed.
    Ignored,
    /// The round used tools: another round follows.
    Continue,
    /// The round used no tool: the prompt is done.
    NoToolsUsed,
    /// The quota of rounds for one prompt is reached: the prompt is done.
    QuotaReached,
}

pub struct AgentLoop {
    iteration_tool_quota: Option<u32>,
    messages: Vec<Message>,
    iterations: u64,
    depth: u32,
    phase: LoopPhase,
}

/// The mathematical content of a scheduler.
pub struct LoopView {
    pub iteration_tool_quota: Option<u32>,
    pub messages: Seq<MessageView>,
    /// Number of prompts taken so far.
    pub iterations: u64,
    /// Number of rounds run on the current prompt.
    pub depth: u32,
    pub phase: LoopPhase,
}

/// `n + 1`, or `n` where it is the largest count.
pub open spec fn count_up(n: u32) -> u32 {
    if n < u32::MAX {
        (n + 1) as u32
    } else {
        n
    }
}

impl LoopView {
    /// The state after the source of prompts answered: with a prompt, which
    /// opens a new iteration on the history, or with its end.
    pub open spec fn prompt(self, prompt: Option<Seq<char>>) -> LoopView {
        if self.phase != LoopPhase::RequestPrompt {
            self
        } else {
            match prompt {
                Some(text) => LoopView {
                    messages: self.messages.push(user_text_turn(text)),
                    iterations: if self.iterations < u64::MAX {
                        (self.iterations + 1) as u64
                    } else {
                        self.iterations
                    },
                    depth: 0,
                    phase: LoopPhase::RunRound,
                    ..self
                },
                None => LoopView { phase: LoopPhase::Terminated, ..self },
            }
        }
    }

    /// How a round that used `tools_used` tools leaves the scheduler.
    pub open spec fn round_end(self, tools_used: nat) -> RoundEnd {
        if self.phase != LoopPhase::RunRound {
            RoundEnd::Ignored
        } else if tools_used == 0 {
            RoundEnd::NoToolsUsed
        } else if self.iteration_tool_quota == Some(count_up(self.depth)) {
            RoundEnd::QuotaReached
        } else {
            RoundEnd::Continue
        }
    }

    /// The state after a round that returned the history `messages` and used
    /// `tools_used` tools.
    pub open spec fn round_finished(self, messages: Seq<MessageView>, tools_used: nat) -> LoopView {
        match self.round_end(tools_used) {
            RoundEnd::Ignored => self,
            RoundEnd::Continue => LoopView { messages, depth: count_up(self.depth), ..self },
            _ => LoopView {
                messages,
                depth: count_up(self.depth),
                phase: LoopPhase::RequestPrompt,
                ..self
            },
        }
    }

    /// The state after the rounds `rounds`, each given by the history it
    /// returned and the number of tools it used.
    pub open spec fn after_rounds(self, rounds: Seq<(Seq<MessageView>, nat)>) -> LoopView
        decreases rounds.len(),
    {
        if rounds.len() == 0 {
            self
        } else {
            self.after_rounds(rounds.drop_last()).round_finished(
                rounds.last().0,
                rounds.last().1,
            )
        }
    }
}

/// With a quota of `quota` rounds and a model that asks for a tool in every
/// round, a prompt gets exactly `quota` rounds: after each of the first
/// `quota - 1` another round is owed, and after round `quota` the next prompt.
pub proof fn law_quota_bounds_rounds(
    start: LoopView,
    quota: u32,
    rounds: Seq<(Seq<MessageView>, nat)>,
)
    requires
        start.phase == LoopPhase::RunRound,
        start.depth == 0,
        start.iteration_tool_quota == Some(quota),
        quota >= 1,
        rounds.len() <= quota,
        forall|k: int| 0 <= k < rounds.len() ==> (#[trigger] rounds[k]).1 > 0,
    ensures
        start.after_rounds(rounds).depth == rounds.len(),
        start.after_rounds(rounds).iteration_tool_quota == Some(quota),
        rounds.len() < quota ==> start.after_rounds(rounds).phase == LoopPhase::RunRound,
        rounds.len() == quota ==> start.after_rounds(rounds).phase == LoopPhase::RequestPrompt,
    decreases rounds.len(),
{
    if rounds.len() > 0 {
        let earlier = rounds.drop_last();
        assert forall|k: int| 0 <= k < earlier.len() implies (#[trigger] earlier[k]).1 > 0 by {
            assert(earlier[k] == rounds[k]);
        }
        law_quota_bounds_rounds(start, quota, earlier);
        assert(rounds.last() == rounds[rounds.len() - 1]);
    }
}

/// A round that uses no tool ends its prompt, whatever the quota.
pub proof fn law_round_without_tools_ends_prompt(v: LoopView, messages: Seq<MessageView>)
    requires
        v.phase == LoopPhase::RunRound,
    ensures
        v.round_finished(messages, 0).phase == LoopPhase::RequestPrompt,
        v.round_finished(messages, 0).messages == messages,
{
}

/// Without a quota, rounds go on for as long as each one uses a tool.
pub proof fn law_no_quota_no_bound(start: LoopView, rounds: Seq<(Seq<MessageView>, nat)>)
    requires
        start.phase == LoopPhase::RunRound,
        start.iteration_tool_quota is None,
        forall|k: int| 0 <= k < rounds.len() ==> (#[trigger] rounds[k]).1 > 0,
    ensures
        start.after_rounds(rounds).phase == LoopPhase::RunRound,
        start.after_rounds(rounds).iteration_tool_quota is None,
    decreases rounds.len(),
{
    if rounds.len() > 0 {
        let earlier = rounds.drop_last();
        assert forall|k: int| 0 <= k < earlier.len() implies (#[trigger] earlier[k]).1 > 0 by {
            assert(earlier[k] == rounds[k]);
        }
        law_no_quota_no_bound(start, earlier);
        assert(rounds.last() == rounds[rounds.len() - 1]);
    }
}

impl View for AgentLoop {
    type V = LoopView;

    closed spec fn view(&self) -> LoopView {
        LoopView {
            iteration_tool_quota: self.iteration_tool_quota,
            messages: history_view(self.messages@),
            iterations: self.iterations,
            depth: self.depth,
            phase: self.phase,
        }
    }
}

impl AgentLoop {
    /// Creates a scheduler with an empty history and the default quota. It
    /// owes a request for the first prompt.
    pub fn new() -> (scheduler: Self)
        ensures
            scheduler@ == (LoopView {
                iteration_tool_quota: Some(DEFAULT_ITERATION_TOOL_QUOTA),
                messages: Seq::empty(),
                iterations: 0,
                depth: 0,
                phase: LoopPhase::RequestPrompt,
            }),
    {
        let scheduler = Self {
            iteration_tool_quota: Some(DEFAULT_ITERATION_TOOL_QUOTA),
            messages: Vec::new(),
            iterations: 0,
            depth: 0,
            phase: LoopPhase::RequestPrompt,
        };
        proof {
            assert(scheduler@.messages =~= Seq::empty());
        }
        scheduler
    }

    /// The maximum number of rounds that one prompt gets. A prompt that
    /// reaches it is left for the next one. The number should be large enough
    /// for the model to finish a task with the tools it needs, and small
    /// enough to stop a model that never ceases to use tools.
    ///
    /// With `None` there is no limit.
    pub fn iteration_tool_quota(self, iteration_tool_quota: Option<u32>) -> (scheduler: Self)
        ensures
            scheduler@ == (LoopView { iteration_tool_quota, ..self@ }),
    {
        let mut scheduler = self;
        scheduler.iteration_tool_quota = iteration_tool_quota;
        scheduler
    }

    /// The step that the scheduler owes.
    pub fn phase(&self) -> (phase: LoopPhase)
        ensures
            phase == self@.phase,
    {
        self.phase
    }

    /// The quota of rounds for one prompt.
    pub fn quota(&self) -> (quota: Option<u32>)
        ensures
            quota == self@.iteration_tool_quota,
    {
        self.iteration_tool_quota
    }

    /// Number of prompts taken so far.
    pub fn iterations(&self) -> (iterations: u64)
        ensures
            iterations == self@.iterations,
    {
        self.iterations
    }

    /// Number of rounds run on the current prompt.
    pub fn depth(&self) -> (depth: u32)
        ensures
            depth == self@.depth,
    {
        self.depth
    }

    /// Takes the answer of the source of prompts: the evaluated text of the
    /// next prompt, which is appended to the history as a user turn, or
    /// `None` where the source has ended. Where no prompt was requested,
    /// nothing changes.
    pub fn prompt(&mut self, prompt: Option<String>) -> (phase: LoopPhase)
        ensures
            final(self)@ == old(self)@.prompt(crate::message::opt_view(prompt)),
            phase == final(self)@.phase,
    {
        match self.phase {
            LoopPhase::RequestPrompt => {},
            _ => {
                return self.phase;
            },
        }
        match prompt {
            Some(text) => {
                let turn = Message::user(text);
                proof {
                    crate::agent::lemma_history_push(self.messages@, turn);
                }
                self.messages.push(turn);
                if self.iterations < u64::MAX {
                    self.iterations = self.iterations + 1;
                }
                self.depth = 0;
                self.phase = LoopPhase::RunRound;
            },
            None => {
                self.phase = LoopPhase::Terminated;
            },
        }
        self.phase
    }

    /// Hands out the history for the round that is owed and leaves an empty
    /// one behind: the round returns the history that replaces it.
    pub fn take_history(&mut self) -> (history: Vec<Message>)
        ensures
            history_view(history@) == old(self)@.messages,
            final(self)@ == (LoopView { messages: Seq::empty(), ..old(self)@ }),
    {
        let mut history: Vec<Message> = Vec::new();
        std::mem::swap(&mut self.messages, &mut history);
        proof {
            assert(history_view(self.messages@) =~= Seq::empty());
        }
        history
    }

    /// Takes the result of the round that was owed. Its history replaces the
    /// scheduler's. The prompt is done where the round used no tool or was
    /// the last that the quota allows; else another round is owed.
    pub fn round_finished(&mut self, result: CompletionResult) -> (end: RoundEnd)
        ensures
            end == old(self)@.round_end(result.tools_used as nat),
            final(self)@ == old(self)@.round_finished(
                history_view(result.messages@),
                result.tools_used as nat,
            ),
    {
        match self.phase {
            LoopPhase::RunRound => {},
            _ => {
                return RoundEnd::Ignored;
            },
        }
        if self.depth < u32::MAX {
            self.depth = self.depth + 1;
        }
        self.messages = result.messages;
        if result.tools_used == 0 {
            self.phase = LoopPhase::RequestPrompt;
            return RoundEnd::NoToolsUsed;
        }
        let reached = match self.iteration_tool_quota {
            Some(quota) => quota == self.depth,
            None => false,
        };
        if reached {
            self.phase = LoopPhase::RequestPrompt;
            RoundEnd::QuotaReached
        } else {
            RoundEnd::Continue
        }
    }

    /// Takes the error of a step that failed: the run is over, and the error
    /// goes to the caller as it is.
    pub fn round_failed(&mut self, error: Error) -> (propagated: Error)
        ensures
            propagated == error,
            final(self)@ == (LoopView { phase: LoopPhase::Failed, ..old(self)@ }),
    {
        self.phase = LoopPhase::Failed;
        error
    }
}

} // verus!
