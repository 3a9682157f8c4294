//! Reading a configuration: the invariant's name, then options.

use crate::error::{viewed, TransformError, TransformErrorView};
use crate::timing::{parse_timing_keyword, timing_keyword, TimingPolicy};
use crate::token::{is_separator, token_views, ConfigToken, ConfigTokenView};
use vstd::prelude::*;

verus! {

/// A configuration split into its parts: the leading identifier and the
/// options that follow it, one per comma.
#[derive(Debug, PartialEq, Eq)]
pub struct AttrList {
    /// The name of the invariant predicate.
    pub invariant_function_identifier: String,
    /// The options, in the order in which they were written.
    pub rest: Vec<ConfigToken>,
}

/// An `AttrList` as contracts see it.
pub struct AttrListView {
    pub invariant_function_identifier: Seq<char>,
    pub rest: Seq<ConfigTokenView>,
}

impl View for AttrList {
    type V = AttrListView;

    open spec fn view(&self) -> AttrListView {
        AttrListView {
            invariant_function_identifier: self.invariant_function_identifier@,
            rest: token_views(self.rest@),
        }
    }
}

/// What a configuration asks for: which predicate to check, and when.
#[derive(Debug, PartialEq, Eq)]
pub struct AttributeSpec {
    /// The name of the invariant predicate.
    pub invariant_name: String,
    /// When the predicate is checked.
    pub timing: TimingPolicy,
}

/// An `AttributeSpec` as contracts see it.
pub struct AttributeSpecView {
    pub invariant_name: Seq<char>,
    pub timing: TimingPolicy,
}

impl View for AttributeSpec {
    type V = AttributeSpecView;

    open spec fn view(&self) -> AttributeSpecView {
        AttributeSpecView { invariant_name: self.invariant_name@, timing: self.timing }
    }
}

/// The shape of a configuration: an identifier, then any number of pairs of
/// a comma and one token. So the tokens at odd places are commas, and the
/// last token is never one of those.
pub open spec fn well_formed_arguments(tokens: Seq<ConfigTokenView>) -> bool {
    &&& tokens.len() % 2 == 1
    &&& tokens[0] is Ident
    &&& forall|i: int| 0 <= i < tokens.len() && i % 2 == 1 ==> is_separator(#[trigger] tokens[i])
}

/// The options of a configuration of good shape: the tokens at the even
/// places after the first.
pub open spec fn options_of(tokens: Seq<ConfigTokenView>) -> Seq<ConfigTokenView> {
    Seq::new((tokens.len() / 2) as nat, |k: int| tokens[2 * k + 2])
}

/// What `AttrList::parse` returns for `tokens`.
pub open spec fn parse_arguments(tokens: Seq<ConfigTokenView>) -> Result<
    AttrListView,
    TransformErrorView,
> {
    if well_formed_arguments(tokens) {
        Ok(
            AttrListView {
                invariant_function_identifier: tokens[0]->Ident_0,
                rest: options_of(tokens),
            },
        )
    } else {
        Err(TransformErrorView::MalformedAttribute)
    }
}

/// The timing that a list of options selects. A literal must be a timing
/// word; of several, the last one counts. A token that is no literal is
/// passed over. Without any literal both checks are made. The error holds
/// the first literal that is no timing word.
pub open spec fn resolve_timing(options: Seq<ConfigTokenView>) -> Result<TimingPolicy, Seq<char>>
    decreases options.len(),
{
    if options.len() == 0 {
        Ok(TimingPolicy::CheckBeforeAndAfter)
    } else {
        match resolve_timing(options.drop_last()) {
            Err(value) => Err(value),
            Ok(earlier) => match options.last() {
                ConfigTokenView::Literal(text) => match timing_keyword(text) {
                    Some(policy) => Ok(policy),
                    None => Err(text),
                },
                _ => Ok(earlier),
            },
        }
    }
}

/// What `AttrList::attribute_spec` returns for `list`.
pub open spec fn attribute_spec_of(list: AttrListView) -> Result<
    AttributeSpecView,
    TransformErrorView,
> {
    match resolve_timing(list.rest) {
        Ok(timing) => Ok(
            AttributeSpecView { invariant_name: list.invariant_function_identifier, timing },
        ),
        Err(value) => Err(TransformErrorView::InvalidTimingKeyword(value)),
    }
}

/// What `parse_attribute` returns for `tokens`.
pub open spec fn parse_attribute_spec(tokens: Seq<ConfigTokenView>) -> Result<
    AttributeSpecView,
    TransformErrorView,
> {
    match parse_arguments(tokens) {
        Ok(list) => attribute_spec_of(list),
        Err(e) => Err(e),
    }
}

impl AttrList {
    /// Splits a configuration into the invariant's name and the options.
    /// Fails with `MalformedAttribute` unless the first token is an
    /// identifier and every further token follows a comma of its own.
    pub fn parse(tokens: &Vec<ConfigToken>) -> (r: Result<AttrList, TransformError>)
        ensures
            viewed(r) == parse_arguments(token_views(tokens@)),
    {
        let ghost views = token_views(tokens@);
        if tokens.len() == 0 {
            return Err(TransformError::MalformedAttribute);
        }
        let first_ident = match &tokens[0] {
            ConfigToken::Ident(name) => name.clone(),
            _ => {
                assert(!(views[0] is Ident));
                return Err(TransformError::MalformedAttribute);
            },
        };
        let mut rest: Vec<ConfigToken> = Vec::new();
        let mut i: usize = 1;
        while i < tokens.len()
            invariant
                views == token_views(tokens@),
                1 <= i <= tokens.len(),
                i % 2 == 1,
                rest.len() == i / 2,
                forall|j: int| 0 <= j < i && j % 2 == 1 ==> is_separator(#[trigger] views[j]),
                forall|k: int| 0 <= k < rest.len() ==> (#[trigger] rest[k])@ == views[2 * k + 2],
            decreases tokens.len() - i,
        {
            if !tokens[i].is_separator() {
                assert(!is_separator(views[i as int]));
                return Err(TransformError::MalformedAttribute);
            }
            if i + 1 >= tokens.len() {
                return Err(TransformError::MalformedAttribute);
            }
            rest.push(tokens[i + 1].clone());
            i = i + 2;
        }
        let list = AttrList { invariant_function_identifier: first_ident, rest };
        proof {
            assert(well_formed_arguments(views));
            assert(list@.rest =~= options_of(views));
        }
        Ok(list)
    }

    /// Settles the timing from the options.
    /// Fails with `InvalidTimingKeyword` where a literal among them is no
    /// timing word.
    pub fn attribute_spec(&self) -> (r: Result<AttributeSpec, TransformError>)
        ensures
            viewed(r) == attribute_spec_of(self@),
    {
        let ghost options = token_views(self.rest@);
        let mut timing = TimingPolicy::CheckBeforeAndAfter;
        let mut i: usize = 0;
        while i < self.rest.len()
            invariant
                options == token_views(self.rest@),
                i <= self.rest.len(),
                resolve_timing(options.take(i as int)) == Ok::<TimingPolicy, Seq<char>>(timing),
            decreases self.rest.len() - i,
        {
            proof {
                assert(options.take(i + 1).drop_last() =~= options.take(i as int));
                assert(options.take(i + 1).last() == options[i as int]);
            }
            match &self.rest[i] {
                ConfigToken::Literal(text) => {
                    match parse_timing_keyword(text.as_str()) {
                        Some(policy) => {
                            timing = policy;
                        },
                        None => {
                            proof {
                                lemma_resolve_timing_fails_from(options, i + 1);
                            }
                            return Err(TransformError::InvalidTimingKeyword(text.clone()));
                        },
                    }
                },
                _ => {},
            }
            i = i + 1;
        }
        proof {
            assert(options.take(i as int) =~= options);
        }
        Ok(AttributeSpec { invariant_name: self.invariant_function_identifier.clone(), timing })
    }
}

/// Once a prefix of the options has failed, the whole list fails alike.
pub proof fn lemma_resolve_timing_fails_from(options: Seq<ConfigTokenView>, n: int)
    requires
        0 <= n <= options.len(),
        resolve_timing(options.take(n)) is Err,
    ensures
        resolve_timing(options) == resolve_timing(options.take(n)),
    decreases options.len() - n,
{
    if n < options.len() {
        assert(options.take(n + 1).drop_last() =~= options.take(n));
        lemma_resolve_timing_fails_from(options, n + 1);
    } else {
        assert(options.take(n) =~= options);
    }
}

/// Reads a configuration: the invariant's name and the timing.
pub fn parse_attribute(tokens: &Vec<ConfigToken>) -> (r: Result<AttributeSpec, TransformError>)
    ensures
        viewed(r) == parse_attribute_spec(token_views(tokens@)),
{
    match AttrList::parse(tokens) {
        Ok(list) => list.attribute_spec(),
        Err(e) => Err(e),
    }
}

} // verus!
