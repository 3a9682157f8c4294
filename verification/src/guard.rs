//! What a wrapper does when it is called: which step comes next, and how
//! the call ends.
//!
//! Evaluating the invariant and running the declared body are the caller's
//! part. The library says which of the two is due, takes the answer, and
//! says what follows.

use crate::render::phase_word;
use crate::synth::{GuardedCall, GuardedCallView};
use crate::timing::{Phase, TimingPolicy};
use vstd::prelude::*;

verus! {

/// Where a call of a wrapper stands.
#[derive(Clone, Copy, Debug, PartialEq, Eq, Structural)]
pub enum CallState {
    /// The invariant is being evaluated at this phase.
    Checking(Phase),
    /// The declared body is running.
    Running,
    /// The call has ended and hands on what the declared body returned.
    Returned,
    /// The call was aborted because the invariant did not hold at this
    /// phase.
    Failed(Phase),
}

/// What has just happened in a call.
#[derive(Clone, Copy, Debug, PartialEq, Eq, Structural)]
pub enum CallEvent {
    /// The invariant was evaluated and gave this answer.
    InvariantEvaluated(bool),
    /// The declared body has returned.
    BodyReturned,
}

/// What is to be done in a state.
#[derive(Clone, Copy, Debug, PartialEq, Eq, Structural)]
pub enum CallAction {
    /// Call the invariant predicate on the receiver.
    EvaluateInvariant,
    /// Run the declared body with the arguments of the call.
    RunBody,
    /// Return what the declared body returned.
    Return,
    /// Abort the call: the invariant did not hold at this phase.
    Abort(Phase),
}

/// The state in which a call starts.
pub open spec fn initial_state(timing: TimingPolicy) -> CallState {
    if timing.checks(Phase::Entry) {
        CallState::Checking(Phase::Entry)
    } else {
        CallState::Running
    }
}

/// The state that follows `state` after `event`. An event that the state
/// does not wait for leaves it as it is.
pub open spec fn next_state(timing: TimingPolicy, state: CallState, event: CallEvent) -> CallState {
    match (state, event) {
        (CallState::Checking(phase), CallEvent::InvariantEvaluated(false)) => CallState::Failed(
            phase,
        ),
        (CallState::Checking(Phase::Entry), CallEvent::InvariantEvaluated(true)) =>
            CallState::Running,
        (CallState::Checking(Phase::Exit), CallEvent::InvariantEvaluated(true)) =>
            CallState::Returned,
        (CallState::Running, CallEvent::BodyReturned) => if timing.checks(Phase::Exit) {
            CallState::Checking(Phase::Exit)
        } else {
            CallState::Returned
        },
        _ => state,
    }
}

/// What is to be done in `state`.
pub open spec fn pending_action(state: CallState) -> CallAction {
    match state {
        CallState::Checking(_) => CallAction::EvaluateInvariant,
        CallState::Running => CallAction::RunBody,
        CallState::Returned => CallAction::Return,
        CallState::Failed(phase) => CallAction::Abort(phase),
    }
}

/// The event with which a caller answers the action that `state` asks
/// for, given what the invariant says on entry and on exit. The two ends
/// of a call ask for nothing more.
pub open spec fn answer(state: CallState, holds_on_entry: bool, holds_on_exit: bool) -> CallEvent {
    match state {
        CallState::Checking(Phase::Entry) => CallEvent::InvariantEvaluated(holds_on_entry),
        CallState::Checking(Phase::Exit) => CallEvent::InvariantEvaluated(holds_on_exit),
        _ => CallEvent::BodyReturned,
    }
}

/// The state of a call after `steps` actions were answered.
pub open spec fn state_after(
    timing: TimingPolicy,
    holds_on_entry: bool,
    holds_on_exit: bool,
    steps: nat,
) -> CallState
    decreases steps,
{
    if steps == 0 {
        initial_state(timing)
    } else {
        let before = state_after(timing, holds_on_entry, holds_on_exit, (steps - 1) as nat);
        next_state(timing, before, answer(before, holds_on_entry, holds_on_exit))
    }
}

/// Whether a call has ended in `state`.
pub open spec fn is_final(state: CallState) -> bool {
    state is Returned || state is Failed
}

/// How a call ends: aborted at the first check that is made and fails,
/// returned if there is none.
pub open spec fn outcome(timing: TimingPolicy, holds_on_entry: bool, holds_on_exit: bool) -> CallState {
    if timing.checks(Phase::Entry) && !holds_on_entry {
        CallState::Failed(Phase::Entry)
    } else if timing.checks(Phase::Exit) && !holds_on_exit {
        CallState::Failed(Phase::Exit)
    } else {
        CallState::Returned
    }
}

/// Whether the declared body runs in a call: always, but where the check
/// on entry is made and fails.
pub open spec fn body_runs(timing: TimingPolicy, holds_on_entry: bool) -> bool {
    !timing.checks(Phase::Entry) || holds_on_entry
}

/// A call of a wrapper ends after three steps at most, in the state that
/// `outcome` names, and stays there. The declared body runs at some step
/// exactly where `body_runs` says so.
pub proof fn lemma_call_reaches_outcome(
    timing: TimingPolicy,
    holds_on_entry: bool,
    holds_on_exit: bool,
)
    ensures
        forall|n: nat|
            n >= 3 ==> #[trigger] state_after(timing, holds_on_entry, holds_on_exit, n) == outcome(
                timing,
                holds_on_entry,
                holds_on_exit,
            ),
        is_final(outcome(timing, holds_on_entry, holds_on_exit)),
        body_runs(timing, holds_on_entry) <==> exists|n: nat| #[trigger]
            state_after(timing, holds_on_entry, holds_on_exit, n) is Running,
{
    let run = |n: nat| state_after(timing, holds_on_entry, holds_on_exit, n);
    let end = outcome(timing, holds_on_entry, holds_on_exit);
    reveal_with_fuel(state_after, 4);
    assert(run(3) == end);
    assert forall|n: nat| n >= 3 implies #[trigger] state_after(
        timing,
        holds_on_entry,
        holds_on_exit,
        n,
    ) == end by {
        lemma_final_state_stays(timing, holds_on_entry, holds_on_exit, 3, n);
    }
    if body_runs(timing, holds_on_entry) {
        if timing.checks(Phase::Entry) {
            assert(run(1) is Running);
        } else {
            assert(run(0) is Running);
        }
    } else {
        assert(run(1) == CallState::Failed(Phase::Entry));
        assert forall|n: nat| !(#[trigger] state_after(
            timing,
            holds_on_entry,
            holds_on_exit,
            n,
        ) is Running) by {
            if n >= 1 {
                lemma_final_state_stays(timing, holds_on_entry, holds_on_exit, 1, n);
            }
        }
    }
}

/// A call that has ended stays as it is.
pub proof fn lemma_final_state_stays(
    timing: TimingPolicy,
    holds_on_entry: bool,
    holds_on_exit: bool,
    from: nat,
    to: nat,
)
    requires
        from <= to,
        is_final(state_after(timing, holds_on_entry, holds_on_exit, from)),
    ensures
        state_after(timing, holds_on_entry, holds_on_exit, to) == state_after(
            timing,
            holds_on_entry,
            holds_on_exit,
            from,
        ),
    decreases to - from,
{
    if from < to {
        lemma_final_state_stays(timing, holds_on_entry, holds_on_exit, from, (to - 1) as nat);
    }
}

/// The failure that aborts a call.
#[derive(Debug, PartialEq, Eq)]
pub struct InvariantViolation {
    /// The check that failed.
    pub phase: Phase,
    /// The predicate that did not hold.
    pub invariant_name: String,
}

/// A failure as contracts see it.
pub struct InvariantViolationView {
    pub phase: Phase,
    pub invariant_name: Seq<char>,
}

impl View for InvariantViolation {
    type V = InvariantViolationView;

    open spec fn view(&self) -> InvariantViolationView {
        InvariantViolationView { phase: self.phase, invariant_name: self.invariant_name@ }
    }
}

/// The text with which a call is aborted.
pub open spec fn violation_message(violation: InvariantViolationView) -> Seq<char> {
    "Invariant "@ + violation.invariant_name + " failed on "@ + phase_word(violation.phase)
}

impl InvariantViolation {
    /// The text with which the call is aborted: it names the predicate and
    /// the phase.
    pub fn message(&self) -> (r: String)
        ensures
            r@ == violation_message(self@),
    {
        let mut out = String::from_str("Invariant ");
        out.append(self.invariant_name.as_str());
        out.append(" failed on ");
        out.append(self.phase.word());
        out
    }
}

/// What a call of a wrapper gives back: the declared body's result, or the
/// failure that aborted it.
pub open spec fn call_result<R>(
    call: GuardedCallView,
    holds_on_entry: bool,
    holds_on_exit: bool,
    body_result: R,
) -> Result<R, InvariantViolationView> {
    match outcome(call.timing, holds_on_entry, holds_on_exit) {
        CallState::Failed(phase) => Err(
            InvariantViolationView { phase, invariant_name: call.invariant },
        ),
        _ => Ok(body_result),
    }
}

impl CallState {
    /// What is to be done in this state.
    pub fn action(self) -> (r: CallAction)
        ensures
            r == pending_action(self),
    {
        match self {
            CallState::Checking(_) => CallAction::EvaluateInvariant,
            CallState::Running => CallAction::RunBody,
            CallState::Returned => CallAction::Return,
            CallState::Failed(phase) => CallAction::Abort(phase),
        }
    }
}

impl GuardedCall {
    /// The state in which a call of the wrapper starts.
    pub fn begin(&self) -> (r: CallState)
        ensures
            r == initial_state(self.timing),
    {
        if self.timing.is_checked(Phase::Entry) {
            CallState::Checking(Phase::Entry)
        } else {
            CallState::Running
        }
    }

    /// The state that follows `state` after `event`.
    pub fn step(&self, state: CallState, event: CallEvent) -> (r: CallState)
        ensures
            r == next_state(self.timing, state, event),
    {
        match (state, event) {
            (CallState::Checking(phase), CallEvent::InvariantEvaluated(false)) => CallState::Failed(
                phase,
            ),
            (CallState::Checking(Phase::Entry), CallEvent::InvariantEvaluated(true)) =>
                CallState::Running,
            (CallState::Checking(Phase::Exit), CallEvent::InvariantEvaluated(true)) =>
                CallState::Returned,
            (CallState::Running, CallEvent::BodyReturned) => {
                if self.timing.is_checked(Phase::Exit) {
                    CallState::Checking(Phase::Exit)
                } else {
                    CallState::Returned
                }
            },
            _ => state,
        }
    }

    /// The failure that aborts a call of the wrapper at `phase`.
    pub fn violation(&self, phase: Phase) -> (r: InvariantViolation)
        ensures
            r@ == (InvariantViolationView { phase, invariant_name: self@.invariant }),
    {
        InvariantViolation { phase, invariant_name: self.invariant.clone() }
    }
}

} // verus!
