//! What holds of every transformation and of every call of a wrapper.

use crate::attr::{parse_attribute_spec, resolve_timing};
use crate::guard::{
    body_runs, call_result, lemma_call_reaches_outcome, state_after, CallState,
    InvariantViolationView,
};
use crate::render::{definition_text, guarded_text, header_text, result_text};
use crate::signature::{bound_names, MethodDeclView};
use crate::synth::{
    check_invariant_spec, renamed, GuardedCallView, MethodBodyView, TransformationResultView,
};
use crate::timing::{timing_keyword, Phase, TimingPolicy};
use crate::token::ConfigTokenView;
use vstd::prelude::*;

verus! {

/// The guarded call that the wrapper of `pair` makes.
pub open spec fn guard_of(pair: TransformationResultView) -> GuardedCallView {
    pair.wrapper.body->Guarded_0
}

/// Whether `tokens` and `decl` give a guarded pair whose wrapper checks
/// with `timing`.
pub open spec fn transformed_with(
    tokens: Seq<ConfigTokenView>,
    decl: MethodDeclView,
    timing: TimingPolicy,
) -> bool {
    &&& check_invariant_spec(tokens, decl) is Ok
    &&& parse_attribute_spec(tokens) matches Ok(attribute) && attribute.timing == timing
}

/// The wrapper of a guarded pair has the declared name, parameters and
/// return type, and a guarded call as its body. The other method has the
/// same parameters and return type and the declared body, under a name that
/// differs from the declared one. The wrapper calls that method with the
/// names that the parameters bind, checks the predicate that the
/// configuration names, and keeps the call's value exactly where a return
/// type is declared. Written out, the wrapper has the declaration's header
/// character for character, and the other method the same header but for
/// the name, around the declared body.
pub proof fn law_pair_keeps_declaration(tokens: Seq<ConfigTokenView>, decl: MethodDeclView)
    requires
        check_invariant_spec(tokens, decl) is Ok,
    ensures
        ({
            let pair = check_invariant_spec(tokens, decl)->Ok_0;
            &&& pair.wrapper.name == decl.name
            &&& pair.wrapper.params == decl.params
            &&& pair.wrapper.return_type == decl.return_type
            &&& pair.wrapper.body is Guarded
            &&& pair.renamed_original.name == renamed(decl.name)
            &&& pair.renamed_original.name != decl.name
            &&& pair.renamed_original.params == decl.params
            &&& pair.renamed_original.return_type == decl.return_type
            &&& pair.renamed_original.body == MethodBodyView::Original(decl.body)
            &&& guard_of(pair).target == pair.renamed_original.name
            &&& guard_of(pair).invariant == tokens[0]->Ident_0
            &&& guard_of(pair).arguments == bound_names(decl.params)
            &&& guard_of(pair).binds_result == decl.return_type is Some
            &&& definition_text(pair.wrapper) == header_text(
                decl.name,
                decl.params,
                decl.return_type,
            ) + " { "@ + guarded_text(guard_of(pair)) + " }"@
            &&& definition_text(pair.renamed_original) == header_text(
                renamed(decl.name),
                decl.params,
                decl.return_type,
            ) + " { "@ + decl.body + " }"@
        }),
{
    reveal_strlit("_no_invariant");
    assert(renamed(decl.name).len() == decl.name.len() + 13);
}

/// Where the wrapper checks on entry and on exit and the invariant holds
/// at both, the call gives back what the declared body returned, and the
/// body has run.
pub proof fn law_both_checks_pass<R>(
    tokens: Seq<ConfigTokenView>,
    decl: MethodDeclView,
    body_result: R,
)
    requires
        transformed_with(tokens, decl, TimingPolicy::CheckBeforeAndAfter),
    ensures
        ({
            let call = guard_of(check_invariant_spec(tokens, decl)->Ok_0);
            &&& call_result(call, true, true, body_result) == Ok::<R, InvariantViolationView>(
                body_result,
            )
            &&& body_runs(call.timing, true)
            &&& state_after(call.timing, true, true, 3) == CallState::Returned
        }),
{
    lemma_call_reaches_outcome(TimingPolicy::CheckBeforeAndAfter, true, true);
}

/// Where the wrapper checks only on entry and the invariant holds there,
/// the call gives back what the declared body returned, whether or not the
/// invariant holds afterwards.
pub proof fn law_before_only_ignores_exit<R>(
    tokens: Seq<ConfigTokenView>,
    decl: MethodDeclView,
    holds_on_exit: bool,
    body_result: R,
)
    requires
        transformed_with(tokens, decl, TimingPolicy::CheckBefore),
    ensures
        ({
            let call = guard_of(check_invariant_spec(tokens, decl)->Ok_0);
            &&& call_result(call, true, holds_on_exit, body_result) == Ok::<
                R,
                InvariantViolationView,
            >(body_result)
            &&& body_runs(call.timing, true)
            &&& state_after(call.timing, true, holds_on_exit, 3) == CallState::Returned
        }),
{
    lemma_call_reaches_outcome(TimingPolicy::CheckBefore, true, holds_on_exit);
}

/// Where the wrapper checks only on exit, the declared body runs whatever
/// the invariant says on entry, and the call fails exactly where the
/// invariant does not hold afterwards: then at the exit, else it gives back
/// what the body returned.
pub proof fn law_after_only_ignores_entry<R>(
    tokens: Seq<ConfigTokenView>,
    decl: MethodDeclView,
    holds_on_entry: bool,
    holds_on_exit: bool,
    body_result: R,
)
    requires
        transformed_with(tokens, decl, TimingPolicy::CheckAfter),
    ensures
        ({
            let call = guard_of(check_invariant_spec(tokens, decl)->Ok_0);
            let result = call_result(call, holds_on_entry, holds_on_exit, body_result);
            &&& body_runs(call.timing, holds_on_entry)
            &&& holds_on_exit ==> result == Ok::<R, InvariantViolationView>(body_result)
            &&& !holds_on_exit ==> result == Err::<R, InvariantViolationView>(
                InvariantViolationView { phase: Phase::Exit, invariant_name: call.invariant },
            )
            &&& state_after(call.timing, holds_on_entry, holds_on_exit, 3) == if holds_on_exit {
                CallState::Returned
            } else {
                CallState::Failed(Phase::Exit)
            }
        }),
{
    lemma_call_reaches_outcome(TimingPolicy::CheckAfter, holds_on_entry, holds_on_exit);
}

/// Where the wrapper checks on entry and on exit and the invariant does not
/// hold on entry, the call fails at the entry, and the declared body never
/// runs.
pub proof fn law_entry_failure_skips_body<R>(
    tokens: Seq<ConfigTokenView>,
    decl: MethodDeclView,
    holds_on_exit: bool,
    body_result: R,
)
    requires
        transformed_with(tokens, decl, TimingPolicy::CheckBeforeAndAfter),
    ensures
        ({
            let call = guard_of(check_invariant_spec(tokens, decl)->Ok_0);
            &&& call_result(call, false, holds_on_exit, body_result) == Err::<
                R,
                InvariantViolationView,
            >(InvariantViolationView { phase: Phase::Entry, invariant_name: call.invariant })
            &&& !body_runs(call.timing, false)
            &&& forall|n: nat| !(#[trigger] state_after(call.timing, false, holds_on_exit, n)
                is Running)
        }),
{
    lemma_call_reaches_outcome(TimingPolicy::CheckBeforeAndAfter, false, holds_on_exit);
}

/// The same configuration and the same declaration give the same guarded
/// pair, or the same failure, and the same source text.
pub proof fn law_transformation_repeats(
    tokens: Seq<ConfigTokenView>,
    decl: MethodDeclView,
    tokens_again: Seq<ConfigTokenView>,
    decl_again: MethodDeclView,
)
    requires
        tokens_again == tokens,
        decl_again == decl,
    ensures
        check_invariant_spec(tokens_again, decl_again) == check_invariant_spec(tokens, decl),
        check_invariant_spec(tokens, decl) matches Ok(pair) ==> result_text(
            check_invariant_spec(tokens_again, decl_again)->Ok_0,
        ) == result_text(pair),
{
}

/// Each policy has two words, and the six words select nothing else.
pub proof fn law_timing_words()
    ensures
        timing_keyword("\"before\""@) == Some(TimingPolicy::CheckBefore),
        timing_keyword("\"require\""@) == Some(TimingPolicy::CheckBefore),
        timing_keyword("\"after\""@) == Some(TimingPolicy::CheckAfter),
        timing_keyword("\"ensure\""@) == Some(TimingPolicy::CheckAfter),
        timing_keyword("\"before_and_after\""@) == Some(TimingPolicy::CheckBeforeAndAfter),
        timing_keyword("\"require_and_ensure\""@) == Some(TimingPolicy::CheckBeforeAndAfter),
{
    reveal_strlit("\"before\"");
    reveal_strlit("\"require\"");
    reveal_strlit("\"after\"");
    reveal_strlit("\"ensure\"");
    reveal_strlit("\"before_and_after\"");
    reveal_strlit("\"require_and_ensure\"");
    assert("\"ensure\""@[1] == 'e');
    assert("\"before\""@[1] == 'b');
    assert("\"after\""@.len() == 7);
    assert("\"require\""@.len() == 9);
    assert("\"before_and_after\""@.len() == 18);
    assert("\"require_and_ensure\""@.len() == 20);
}

/// Options without a literal select both checks.
pub proof fn law_default_timing(options: Seq<ConfigTokenView>)
    requires
        forall|i: int| 0 <= i < options.len() ==> !(#[trigger] options[i] is Literal),
    ensures
        resolve_timing(options) == Ok::<TimingPolicy, Seq<char>>(
            TimingPolicy::CheckBeforeAndAfter,
        ),
    decreases options.len(),
{
    if options.len() > 0 {
        law_default_timing(options.drop_last());
        assert(!(options[options.len() - 1] is Literal));
    }
}

/// Where every literal among the options is a timing word, the last
/// literal selects the timing.
pub proof fn law_last_timing_word_counts(options: Seq<ConfigTokenView>, last: int)
    requires
        0 <= last < options.len(),
        options[last] is Literal,
        forall|i: int| last < i < options.len() ==> !(#[trigger] options[i] is Literal),
        forall|i: int|
            0 <= i < options.len() && (#[trigger] options[i]) is Literal ==> timing_keyword(
                options[i]->Literal_0,
            ) is Some,
    ensures
        resolve_timing(options) == Ok::<TimingPolicy, Seq<char>>(
            timing_keyword(options[last]->Literal_0)->Some_0,
        ),
    decreases options.len(),
{
    let shorter = options.drop_last();
    lemma_timing_words_resolve(shorter);
    if last < options.len() - 1 {
        assert(!(options[options.len() - 1] is Literal));
        assert(shorter[last] == options[last]);
        law_last_timing_word_counts(shorter, last);
    }
}

/// Where every literal among the options is a timing word, a timing is
/// selected.
pub proof fn lemma_timing_words_resolve(options: Seq<ConfigTokenView>)
    requires
        forall|i: int|
            0 <= i < options.len() && (#[trigger] options[i]) is Literal ==> timing_keyword(
                options[i]->Literal_0,
            ) is Some,
    ensures
        resolve_timing(options) is Ok,
    decreases options.len(),
{
    if options.len() > 0 {
        lemma_timing_words_resolve(options.drop_last());
        let last = options[options.len() - 1];
        assert(last is Literal ==> timing_keyword(last->Literal_0) is Some);
    }
}

/// The first literal among the options that is no timing word is the one
/// that the failure names.
pub proof fn law_first_unknown_word_is_reported(options: Seq<ConfigTokenView>, first: int)
    requires
        0 <= first < options.len(),
        options[first] is Literal,
        timing_keyword(options[first]->Literal_0) is None,
        forall|i: int|
            0 <= i < first && (#[trigger] options[i]) is Literal ==> timing_keyword(
                options[i]->Literal_0,
            ) is Some,
    ensures
        resolve_timing(options) == Err::<TimingPolicy, Seq<char>>(options[first]->Literal_0),
    decreases options.len(),
{
    let shorter = options.drop_last();
    if first < options.len() - 1 {
        assert(shorter[first] == options[first]);
        law_first_unknown_word_is_reported(shorter, first);
    } else {
        lemma_timing_words_resolve(shorter);
    }
}

} // verus!
