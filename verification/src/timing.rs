//! When the invariant is checked, and the words that select it.

use crate::text::same_text;
use vstd::prelude::*;

verus! {

/// The two points of a call at which the invariant can be checked.
#[derive(Clone, Copy, Debug, PartialEq, Eq, Structural)]
pub enum Phase {
    /// Before the declared body runs.
    Entry,
    /// After the declared body has returned.
    Exit,
}

/// Which of the two checks a wrapper makes.
#[derive(Clone, Copy, Debug, PartialEq, Eq, Structural)]
pub enum TimingPolicy {
    /// Only on entry.
    CheckBefore,
    /// Only on exit.
    CheckAfter,
    /// On entry and on exit.
    CheckBeforeAndAfter,
}

impl TimingPolicy {
    /// Whether this policy checks the invariant at `phase`.
    pub open spec fn checks(self, phase: Phase) -> bool {
        match phase {
            Phase::Entry => self != TimingPolicy::CheckAfter,
            Phase::Exit => self != TimingPolicy::CheckBefore,
        }
    }

    /// Whether this policy checks the invariant at `phase`.
    pub fn is_checked(self, phase: Phase) -> (r: bool)
        ensures
            r == self.checks(phase),
    {
        match phase {
            Phase::Entry => !matches!(self, TimingPolicy::CheckAfter),
            Phase::Exit => !matches!(self, TimingPolicy::CheckBefore),
        }
    }
}

impl Default for TimingPolicy {
    fn default() -> (r: Self)
        ensures
            r == TimingPolicy::CheckBeforeAndAfter,
    {
        TimingPolicy::CheckBeforeAndAfter
    }
}

/// The policy that the source text of a literal selects, if it is one of the
/// recognised words. The text is the literal as written, quotes included.
/// Each policy has two names: `before` or `require`, `after` or `ensure`,
/// `before_and_after` or `require_and_ensure`.
pub open spec fn timing_keyword(literal: Seq<char>) -> Option<TimingPolicy> {
    if literal == "\"before\""@ || literal == "\"require\""@ {
        Some(TimingPolicy::CheckBefore)
    } else if literal == "\"after\""@ || literal == "\"ensure\""@ {
        Some(TimingPolicy::CheckAfter)
    } else if literal == "\"before_and_after\""@ || literal == "\"require_and_ensure\""@ {
        Some(TimingPolicy::CheckBeforeAndAfter)
    } else {
        None
    }
}

/// Looks `literal` up among the timing words.
pub fn parse_timing_keyword(literal: &str) -> (r: Option<TimingPolicy>)
    ensures
        r == timing_keyword(literal@),
{
    if same_text(literal, "\"before\"") || same_text(literal, "\"require\"") {
        Some(TimingPolicy::CheckBefore)
    } else if same_text(literal, "\"after\"") || same_text(literal, "\"ensure\"") {
        Some(TimingPolicy::CheckAfter)
    } else if same_text(literal, "\"before_and_after\"") || same_text(
        literal,
        "\"require_and_ensure\"",
    ) {
        Some(TimingPolicy::CheckBeforeAndAfter)
    } else {
        None
    }
}

} // verus!
