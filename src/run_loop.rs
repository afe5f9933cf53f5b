//! The decisions of the run loop: keep going after each success, stop at the
//! first failure, report it and ring the bell.

use vstd::prelude::*;

use crate::outcome::RunError;

verus! {

/// The character written to standard output when the loop stops.
pub const BELL: char = '\x07';

/// Whether the loop goes on running the command.
#[derive(Debug, Clone, Copy, PartialEq, Eq, Structural)]
pub enum LoopState {
    Running,
    Stopped,
}

/// What the loop asks its driver to do after a run.
#[derive(Debug)]
pub enum Effect {
    /// Print this failure on the error channel.
    Report(RunError),
    /// Write `BELL` to standard output.
    Bell,
}

/// The state after a run with `outcome`: a failure stops the loop for good.
pub open spec fn next_state(state: LoopState, outcome: Result<(), RunError>) -> LoopState {
    match state {
        LoopState::Running => if outcome is Ok {
            LoopState::Running
        } else {
            LoopState::Stopped
        },
        LoopState::Stopped => LoopState::Stopped,
    }
}

/// What a run with `outcome` asks for: after a failure of a running loop, the
/// report and then the bell; else nothing.
pub open spec fn effects_of(state: LoopState, outcome: Result<(), RunError>) -> Seq<Effect> {
    match (state, outcome) {
        (LoopState::Running, Err(e)) => seq![Effect::Report(e), Effect::Bell],
        _ => Seq::empty(),
    }
}

impl LoopState {
    /// The state the loop starts in.
    pub fn new() -> (r: LoopState)
        ensures
            r == LoopState::Running,
    {
        LoopState::Running
    }

    /// Whether another run is due.
    pub fn is_running(&self) -> (r: bool)
        ensures
            r == (*self == LoopState::Running),
    {
        match self {
            LoopState::Running => true,
            LoopState::Stopped => false,
        }
    }
}

/// Takes the outcome of one run and decides what comes next.
pub fn step(state: LoopState, outcome: Result<(), RunError>) -> (r: (LoopState, Vec<Effect>))
    ensures
        r.0 == next_state(state, outcome),
        r.1@ == effects_of(state, outcome),
{
    let ghost o = outcome;
    let mut effects: Vec<Effect> = Vec::new();
    match state {
        LoopState::Running => match outcome {
            Ok(()) => (LoopState::Running, effects),
            Err(e) => {
                effects.push(Effect::Report(e));
                effects.push(Effect::Bell);
                assert(effects@ =~= effects_of(state, o));
                (LoopState::Stopped, effects)
            },
        },
        LoopState::Stopped => (LoopState::Stopped, effects),
    }
}

/// A loop in `state` whose runs turn out as `outcomes`, in order: how many
/// runs it makes, and all it asks for. It makes no run once stopped.
pub open spec fn drive(state: LoopState, outcomes: Seq<Result<(), RunError>>) -> (nat, Seq<Effect>)
    decreases outcomes.len(),
{
    if state == LoopState::Stopped || outcomes.len() == 0 {
        (0, Seq::empty())
    } else {
        let rest = drive(next_state(state, outcomes[0]), outcomes.drop_first());
        (rest.0 + 1, effects_of(state, outcomes[0]) + rest.1)
    }
}

/// The loop stops right after the first failing run: where the runs before
/// index `k` succeed and run `k` fails, the loop makes exactly `k + 1` runs,
/// reports that one failure and rings the bell once, in that order.
pub proof fn lemma_stops_at_first_failure(outcomes: Seq<Result<(), RunError>>, k: int)
    requires
        0 <= k < outcomes.len(),
        outcomes[k] is Err,
        forall|j: int| 0 <= j < k ==> #[trigger] outcomes[j] is Ok,
    ensures
        outcomes[k] matches Err(e) && drive(LoopState::Running, outcomes) == (
            (k + 1) as nat,
            seq![Effect::Report(e), Effect::Bell],
        ),
    decreases k,
{
    if k == 0 {
        let rest = drive(LoopState::Stopped, outcomes.drop_first());
        assert(rest == (0nat, Seq::<Effect>::empty()));
        assert(effects_of(LoopState::Running, outcomes[0]) + rest.1 =~= effects_of(
            LoopState::Running,
            outcomes[0],
        ));
    } else {
        let tail = outcomes.drop_first();
        assert(outcomes[0] is Ok);
        assert forall|j: int| 0 <= j < k - 1 implies #[trigger] tail[j] is Ok by {
            assert(tail[j] == outcomes[j + 1]);
        }
        lemma_stops_at_first_failure(tail, k - 1);
        let rest = drive(LoopState::Running, tail);
        assert(effects_of(LoopState::Running, outcomes[0]) + rest.1 =~= rest.1);
    }
}

} // verus!
