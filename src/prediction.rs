//! Client-side prediction: when to roll back, and the replay of buffered
//! inputs from a corrected baseline.

use vstd::prelude::*;
use crate::replication::ComponentSyncMode;

verus! {

/// What to do with a predicted component when a confirmed value arrives.
#[derive(Debug, Clone, Copy, PartialEq, Eq, Structural)]
pub enum Correction {
    /// The prediction matched: nothing to do.
    Keep,
    /// Not a predicted component: take the confirmed value as it is.
    Overwrite,
    /// The prediction diverged: restart from the confirmed value and replay.
    Rollback,
}

pub open spec fn correction_spec(mode: ComponentSyncMode, predicted: Option<i64>, confirmed: i64) -> Correction {
    match mode {
        ComponentSyncMode::Full => if predicted == Some(confirmed) {
            Correction::Keep
        } else {
            Correction::Rollback
        },
        _ => Correction::Overwrite,
    }
}

/// Decides the correction for a component of sync mode `mode`, whose
/// predicted value at the confirmed tick was `predicted` (none if it was not
/// recorded), when the server confirms `confirmed` for that tick.
pub fn correction(mode: ComponentSyncMode, predicted: Option<i64>, confirmed: i64) -> (r: Correction)
    ensures
        r == correction_spec(mode, predicted, confirmed),
{
    match mode {
        ComponentSyncMode::Full => match predicted {
            Some(p) => if p == confirmed {
                Correction::Keep
            } else {
                Correction::Rollback
            },
            None => Correction::Rollback,
        },
        _ => Correction::Overwrite,
    }
}

/// `r` is a state that stepping from `s` through `inputs`, in order, can end
/// in, for a step function whose outcomes are those its `ensures` allow.
pub open spec fn replays_to<F: Fn(i64, i64) -> i64>(step: F, s: i64, inputs: Seq<i64>, r: i64) -> bool
    decreases inputs.len(),
{
    if inputs.len() == 0 {
        r == s
    } else {
        exists|m: i64|
            replays_to(step, s, inputs.drop_last(), m) && #[trigger] step.ensures((m, inputs.last()), r)
    }
}

/// `states[i]` is a state reached from `s` after the first `i + 1` inputs:
/// the replayed state at each tick after the baseline.
pub open spec fn replays_ticks<F: Fn(i64, i64) -> i64>(step: F, s: i64, inputs: Seq<i64>, states: Seq<i64>) -> bool {
    &&& states.len() == inputs.len()
    &&& forall|i: int| 0 <= i < states.len() ==> replays_to(step, s, inputs.subrange(0, i + 1), #[trigger] states[i])
}

/// A step function with one outcome for each state and input.
pub open spec fn deterministic<F: Fn(i64, i64) -> i64>(step: F) -> bool {
    forall|s: i64, i: i64, a: i64, b: i64|
        step.ensures((s, i), a) && step.ensures((s, i), b) ==> a == b
}

/// Replays `inputs`, in order, from the corrected `baseline`, and returns the
/// state after each of them, one per tick.
pub fn resimulate<F: Fn(i64, i64) -> i64>(step: &F, baseline: i64, inputs: &Vec<i64>) -> (r: Vec<i64>)
    requires
        forall|s: i64, i: i64| step.requires((s, i)),
    ensures
        replays_ticks(*step, baseline, inputs@, r@),
{
    let mut states: Vec<i64> = Vec::new();
    let mut cur = baseline;
    let mut k: usize = 0;
    proof {
        assert(inputs@.subrange(0, 0).len() == 0);
    }
    while k < inputs.len()
        invariant
            k <= inputs@.len(),
            forall|s: i64, i: i64| step.requires((s, i)),
            replays_to(*step, baseline, inputs@.subrange(0, k as int), cur),
            states@.len() == k,
            forall|i: int| 0 <= i < k ==> replays_to(*step, baseline, inputs@.subrange(0, i + 1), #[trigger] states@[i]),
        decreases inputs.len() - k,
    {
        let next = step(cur, inputs[k]);
        proof {
            let pre = inputs@.subrange(0, k + 1);
            assert(pre.drop_last() =~= inputs@.subrange(0, k as int));
            assert(pre.last() == inputs@[k as int]);
            assert(step.ensures((cur, pre.last()), next));
        }
        states.push(next);
        cur = next;
        k = k + 1;
    }
    states
}

/// With a deterministic step function, replaying the same inputs from the
/// same baseline always reaches the same state.
pub proof fn lemma_replay_deterministic<F: Fn(i64, i64) -> i64>(
    step: F,
    s: i64,
    inputs: Seq<i64>,
    r1: i64,
    r2: i64,
)
    requires
        deterministic(step),
        replays_to(step, s, inputs, r1),
        replays_to(step, s, inputs, r2),
    ensures
        r1 == r2,
    decreases inputs.len(),
{
    if inputs.len() > 0 {
        let m1 = choose|m: i64|
            replays_to(step, s, inputs.drop_last(), m) && #[trigger] step.ensures((m, inputs.last()), r1);
        let m2 = choose|m: i64|
            replays_to(step, s, inputs.drop_last(), m) && #[trigger] step.ensures((m, inputs.last()), r2);
        lemma_replay_deterministic(step, s, inputs.drop_last(), m1, m2);
    }
}

/// With a deterministic step function, two replays of the same buffered
/// inputs from the same corrected baseline agree at every tick.
pub proof fn lemma_replay_ticks_deterministic<F: Fn(i64, i64) -> i64>(
    step: F,
    s: i64,
    inputs: Seq<i64>,
    states1: Seq<i64>,
    states2: Seq<i64>,
)
    requires
        deterministic(step),
        replays_ticks(step, s, inputs, states1),
        replays_ticks(step, s, inputs, states2),
    ensures
        states1 == states2,
{
    assert forall|i: int| 0 <= i < states1.len() implies states1[i] == states2[i] by {
        lemma_replay_deterministic(step, s, inputs.subrange(0, i + 1), states1[i], states2[i]);
    }
    assert(states1 =~= states2);
}

} // verus!
