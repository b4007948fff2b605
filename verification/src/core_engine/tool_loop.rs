//! The loop that calls the model and runs the tools it asks for: its state,
//! one step of it, and what a whole run of it does. The caller makes the
//! calls and runs the tools; the loop decides.
use vstd::prelude::*;
use crate::core_engine::agents::{LlmResponse, ToolCall};
use crate::core_engine::errors::AppError;
use crate::core_engine::machine::{
    first_choice_tool_calls, next_tool_call, tool_loop_until_final_answer_guard, tool_or_not_loop_guard,
};
use crate::text::decimal;

verus! {

/// Whether an answer asks for a tool run: its first choice calls at least one tool.
pub open spec fn calls_tool(resp: LlmResponse) -> bool {
    match first_choice_tool_calls(resp) {
        Some(v) => v@.len() > 0,
        None => false,
    }
}

/// How a run of the loop ends, with the number of calls made to the model.
pub enum LoopEnd {
    Final { calls: nat },
    Exhausted { calls: nat },
}

/// A run of the loop against a model whose answer to the `i`-th call asks for
/// a tool exactly when `answers[i]`, once `rounds` calls have asked for tools:
/// before each call the loop stops, exhausted, once `max` calls have been
/// made; it ends at the first answer that asks for no tool.
pub open spec fn loop_end(answers: Seq<bool>, rounds: nat, max: nat) -> LoopEnd
    decreases max - rounds,
{
    if rounds >= max {
        LoopEnd::Exhausted { calls: rounds }
    } else if !answers[rounds as int] {
        LoopEnd::Final { calls: rounds + 1 }
    } else {
        loop_end(answers, rounds + 1, max)
    }
}

/// The state of the loop: how many answers asked for a tool so far, the most
/// calls allowed, and, for the proofs, whether each answer seen asked for a tool.
pub struct ToolLoop {
    pub rounds: usize,
    pub max_loop: usize,
    pub asked: Ghost<Seq<bool>>,
}

impl ToolLoop {
    /// Every answer seen asked for a tool, and each of them is a round.
    pub open spec fn tracks(&self) -> bool {
        &&& self.rounds == self.asked@.len()
        &&& forall|i: int| 0 <= i < self.asked@.len() ==> self.asked@[i]
    }

    /// A loop that has made no call yet.
    pub fn new(max_loop: usize) -> (r: ToolLoop)
        ensures
            r.rounds == 0,
            r.max_loop == max_loop,
            r.asked@ == Seq::<bool>::empty(),
            r.tracks(),
    {
        ToolLoop { rounds: 0, max_loop, asked: Ghost(Seq::empty()) }
    }

    /// Before a call of the loop that may end without a tool call: an `Agent`
    /// error once `max_loop` calls have been made.
    pub fn before_call_tool_or_not(&self) -> (r: Result<(), AppError>)
        ensures
            self.rounds < self.max_loop ==> r is Ok,
            self.rounds >= self.max_loop ==> (r matches Err(AppError::Agent(m)) && m@
                == "Reached max tool loop iteration: "@ + decimal(self.max_loop as nat)),
    {
        tool_or_not_loop_guard(self.rounds, self.max_loop)
    }

    /// Before a call: an `Agent` error once `max_loop` calls have been made.
    pub fn before_call(&self) -> (r: Result<(), AppError>)
        ensures
            self.rounds < self.max_loop ==> r is Ok,
            self.rounds >= self.max_loop ==> (r matches Err(AppError::Agent(m)) && m@
                == "Max tool loop reached: "@ + decimal(self.max_loop as nat)),
    {
        tool_loop_until_final_answer_guard(self.rounds, self.max_loop)
    }

    /// After an answer: the tool call to run (the first of the answer's first
    /// choice), counting the round; `None` when the answer is final.
    pub fn after_answer<'a>(&mut self, answer: &'a LlmResponse) -> (r: Option<&'a ToolCall>)
        requires
            old(self).rounds < old(self).max_loop,
        ensures
            final(self).max_loop == old(self).max_loop,
            final(self).asked@ == old(self).asked@.push(calls_tool(*answer)),
            old(self).tracks() && r is Some ==> final(self).tracks(),
            calls_tool(*answer) <==> r is Some,
            r is Some ==> final(self).rounds == old(self).rounds + 1 && *r->Some_0
                == first_choice_tool_calls(*answer)->Some_0@[0],
            r is None ==> final(self).rounds == old(self).rounds,
    {
        let call = next_tool_call(answer);
        proof {
            self.asked = Ghost(self.asked@.push(calls_tool(*answer)));
        }
        if call.is_some() {
            self.rounds = self.rounds + 1;
        }
        call
    }
}

/// One step of the loop: exhausted once `max` calls are made; else a final
/// answer ends it with one call more; else it goes on with one round more.
pub proof fn lemma_loop_end_step(answers: Seq<bool>, rounds: nat, max: nat)
    ensures
        rounds >= max ==> loop_end(answers, rounds, max) == (LoopEnd::Exhausted { calls: rounds }),
        rounds < max && !answers[rounds as int] ==> loop_end(answers, rounds, max) == (LoopEnd::Final {
            calls: rounds + 1,
        }),
        rounds < max && answers[rounds as int] ==> loop_end(answers, rounds, max) == loop_end(
            answers,
            rounds + 1,
            max,
        ),
{
}

proof fn lemma_loop_end_from(answers: Seq<bool>, rounds: nat, max: nat)
    requires
        rounds <= max,
        forall|i: int| 0 <= i < rounds ==> answers[i],
    ensures
        match loop_end(answers, rounds, max) {
            LoopEnd::Final { calls } => 1 <= calls <= max && !answers[calls - 1] && forall|i: int|
                0 <= i < calls - 1 ==> answers[i],
            LoopEnd::Exhausted { calls } => calls == max && forall|i: int| 0 <= i < max ==> answers[i],
        },
    decreases max - rounds,
{
    if rounds < max && answers[rounds as int] {
        assert forall|i: int| 0 <= i < rounds + 1 implies answers[i] by {
            if i < rounds {
            }
        }
        lemma_loop_end_from(answers, rounds + 1, max);
    }
}

/// The loop calls the model at most `max` times. It ends at the first answer
/// that asks for no tool, every answer before it having asked for one; it is
/// exhausted, after exactly `max` calls, only when the first `max` answers all
/// asked for a tool.
pub proof fn law_tool_loop_bounded(answers: Seq<bool>, max: nat)
    ensures
        match loop_end(answers, 0, max) {
            LoopEnd::Final { calls } => 1 <= calls <= max && !answers[calls - 1] && forall|i: int|
                0 <= i < calls - 1 ==> answers[i],
            LoopEnd::Exhausted { calls } => calls == max && forall|i: int| 0 <= i < max ==> answers[i],
        },
{
    lemma_loop_end_from(answers, 0, max);
}

proof fn lemma_loop_end_skip(answers: Seq<bool>, from: nat, rounds: nat, max: nat)
    requires
        from <= rounds <= max,
        forall|i: int| from <= i < rounds ==> answers[i],
    ensures
        loop_end(answers, from, max) == loop_end(answers, rounds, max),
    decreases rounds - from,
{
    if from < rounds {
        lemma_loop_end_skip(answers, from + 1, rounds, max);
    }
}

/// The state of the real loop stands for the run so far: from a state that
/// tracks its answers, whatever the model answers next, the run from the first
/// call ends as the run from the present round does.
pub proof fn law_tool_loop_state(l: ToolLoop, later: Seq<bool>)
    requires
        l.tracks(),
        l.rounds <= l.max_loop,
    ensures
        loop_end(l.asked@ + later, 0, l.max_loop as nat) == loop_end(
            l.asked@ + later,
            l.rounds as nat,
            l.max_loop as nat,
        ),
{
    let s = l.asked@ + later;
    assert forall|i: int| 0 <= i < l.rounds implies s[i] by {
        assert(s[i] == l.asked@[i]);
    }
    lemma_loop_end_skip(s, 0, l.rounds as nat, l.max_loop as nat);
}

} // verus!
