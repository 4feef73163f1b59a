//! A source of prompts that yields one prompt a fixed number of times, with
//! a pause before every repetition but the first.

use crate::completion_evaluated_prompt::CompletionEvaluatedPrompt;
use core::time::Duration;
use vstd::prelude::*;

verus! {

/// The state of a repeating source: the prompt, the pause, the number of
/// repetitions allowed and the number made.
pub struct RepeatingPrompt<S> {
    prompt: CompletionEvaluatedPrompt<S>,
    delay: Option<Duration>,
    max_reps: usize,
    reps: usize,
}

/// One repetition: how long to wait first, and the prompt to yield then.
pub struct Repetition<S> {
    /// The pause to take before the prompt is yielded, if any.
    pub delay: Option<Duration>,
    pub prompt: CompletionEvaluatedPrompt<S>,
}

/// The mathematical content of a repeating source. The prompt is held as
/// it is, with the connections of its parts.
pub struct RepeatingView<S> {
    pub prompt: CompletionEvaluatedPrompt<S>,
    pub delay: Option<Duration>,
    pub max_reps: usize,
    pub reps: usize,
}

impl<S> RepeatingView<S> {
    /// The source has yielded all its repetitions.
    pub open spec fn exhausted(self) -> bool {
        self.reps >= self.max_reps
    }

    /// The pause before the next repetition: none before the first.
    pub open spec fn next_delay(self) -> Option<Duration> {
        if self.reps > 0 {
            self.delay
        } else {
            None
        }
    }
}

impl<S> View for RepeatingPrompt<S> {
    type V = RepeatingView<S>;

    closed spec fn view(&self) -> RepeatingView<S> {
        RepeatingView {
            prompt: self.prompt,
            delay: self.delay,
            max_reps: self.max_reps,
            reps: self.reps,
        }
    }
}

/// A source that yields `prompt` `max_reps` times and pauses for `delay`
/// before every repetition but the first.
pub fn repeating_prompt_stream<S>(
    prompt: CompletionEvaluatedPrompt<S>,
    delay: Option<Duration>,
    max_reps: usize,
) -> (source: RepeatingPrompt<S>)
    ensures
        source@ == (RepeatingView { prompt, delay, max_reps, reps: 0 }),
{
    RepeatingPrompt { prompt, delay, max_reps, reps: 0 }
}

impl<S: Clone> RepeatingPrompt<S> {
    /// The next repetition, or `None` once all were yielded. A repetition
    /// holds a copy of the prompt, part by part.
    pub fn next(&mut self) -> (repetition: Option<Repetition<S>>)
        ensures
            repetition is None <==> old(self)@.exhausted(),
            old(self)@.exhausted() ==> final(self)@ == old(self)@,
            !old(self)@.exhausted() ==> final(self)@ == (RepeatingView {
                reps: (old(self)@.reps + 1) as usize,
                ..old(self)@
            }),
            repetition matches Some(r) ==> r.delay == old(self)@.next_delay() && r.prompt@ == old(
                self,
            )@.prompt@ && old(self)@.prompt.copied_to(&r.prompt),
    {
        if self.reps >= self.max_reps {
            return None;
        }
        let delay = if self.reps > 0 {
            self.delay
        } else {
            None
        };
        self.reps = self.reps + 1;
        Some(Repetition { delay, prompt: self.prompt.clone() })
    }
}

} // verus!
