//! Building the guarded pair: the declared body under an internal name, and
//! the wrapper that stands in its place.

use crate::attr::{parse_attribute, parse_attribute_spec, AttributeSpec, AttributeSpecView};
use crate::error::{viewed, TransformError, TransformErrorView};
use crate::signature::{
    clone_params, extract_signature, param_views, signature_of, MethodDecl, MethodDeclView,
    MethodSignature, MethodSignatureView, Param, ParamView,
};
use crate::text::{clone_optional_text, clone_texts, optional_text, text_views};
use crate::timing::TimingPolicy;
use crate::token::{token_views, ConfigToken, ConfigTokenView};
use vstd::prelude::*;

verus! {

/// What a wrapper's body does: check, call, check, hand the result on.
#[derive(Debug, PartialEq, Eq)]
pub struct GuardedCall {
    /// The predicate that is called on the receiver for each check.
    pub invariant: String,
    /// The method that holds the declared body.
    pub target: String,
    /// The names handed to `target`, in order.
    pub arguments: Vec<String>,
    /// Which of the two checks are made.
    pub timing: TimingPolicy,
    /// Whether the call's value is kept and returned.
    pub binds_result: bool,
}

/// A `GuardedCall` as contracts see it.
pub struct GuardedCallView {
    pub invariant: Seq<char>,
    pub target: Seq<char>,
    pub arguments: Seq<Seq<char>>,
    pub timing: TimingPolicy,
    pub binds_result: bool,
}

impl View for GuardedCall {
    type V = GuardedCallView;

    open spec fn view(&self) -> GuardedCallView {
        GuardedCallView {
            invariant: self.invariant@,
            target: self.target@,
            arguments: text_views(self.arguments@),
            timing: self.timing,
            binds_result: self.binds_result,
        }
    }
}

/// The body of a generated method.
#[derive(Debug, PartialEq, Eq)]
pub enum MethodBody {
    /// The body of the declaration, as it was written.
    Original(String),
    /// A guarded call of the method that holds that body.
    Guarded(GuardedCall),
}

/// A body as contracts see it.
pub enum MethodBodyView {
    Original(Seq<char>),
    Guarded(GuardedCallView),
}

impl View for MethodBody {
    type V = MethodBodyView;

    open spec fn view(&self) -> MethodBodyView {
        match self {
            MethodBody::Original(text) => MethodBodyView::Original(text@),
            MethodBody::Guarded(call) => MethodBodyView::Guarded(call@),
        }
    }
}

/// A generated method.
#[derive(Debug, PartialEq, Eq)]
pub struct MethodDefinition {
    /// The method's name.
    pub name: String,
    /// The parameters as they were written, the receiver first.
    pub params: Vec<Param>,
    /// The type after the arrow, if there is one.
    pub return_type: Option<String>,
    /// What the method does.
    pub body: MethodBody,
}

/// A generated method as contracts see it.
pub struct MethodDefinitionView {
    pub name: Seq<char>,
    pub params: Seq<ParamView>,
    pub return_type: Option<Seq<char>>,
    pub body: MethodBodyView,
}

impl View for MethodDefinition {
    type V = MethodDefinitionView;

    open spec fn view(&self) -> MethodDefinitionView {
        MethodDefinitionView {
            name: self.name@,
            params: param_views(self.params@),
            return_type: optional_text(self.return_type),
            body: self.body@,
        }
    }
}

/// The two methods that take the place of one declaration. They belong on
/// the same type; only the wrapper is meant to be called.
#[derive(Debug, PartialEq, Eq)]
pub struct TransformationResult {
    /// The declared body under its internal name.
    pub renamed_original: MethodDefinition,
    /// The guarded method under the declared name.
    pub wrapper: MethodDefinition,
}

/// A guarded pair as contracts see it.
pub struct TransformationResultView {
    pub renamed_original: MethodDefinitionView,
    pub wrapper: MethodDefinitionView,
}

impl View for TransformationResult {
    type V = TransformationResultView;

    open spec fn view(&self) -> TransformationResultView {
        TransformationResultView {
            renamed_original: self.renamed_original@,
            wrapper: self.wrapper@,
        }
    }
}

/// The name under which the declared body of `name` is kept.
pub open spec fn renamed(name: Seq<char>) -> Seq<char> {
    name + "_no_invariant"@
}

/// What `synthesize` returns.
pub open spec fn synthesize_spec(
    attribute: AttributeSpecView,
    signature: MethodSignatureView,
    body: Seq<char>,
) -> TransformationResultView {
    TransformationResultView {
        renamed_original: MethodDefinitionView {
            name: renamed(signature.name),
            params: signature.params,
            return_type: signature.return_type,
            body: MethodBodyView::Original(body),
        },
        wrapper: MethodDefinitionView {
            name: signature.name,
            params: signature.params,
            return_type: signature.return_type,
            body: MethodBodyView::Guarded(
                GuardedCallView {
                    invariant: attribute.invariant_name,
                    target: renamed(signature.name),
                    arguments: signature.arg_names,
                    timing: attribute.timing,
                    binds_result: signature.return_type is Some,
                },
            ),
        },
    }
}

/// What `check_invariant` returns: the first failure among the
/// configuration's shape, its timing words and the declaration's receiver,
/// in that order, or else the guarded pair.
pub open spec fn check_invariant_spec(
    tokens: Seq<ConfigTokenView>,
    decl: MethodDeclView,
) -> Result<TransformationResultView, TransformErrorView> {
    match parse_attribute_spec(tokens) {
        Err(e) => Err(e),
        Ok(attribute) => match signature_of(decl) {
            Err(e) => Err(e),
            Ok(signature) => Ok(synthesize_spec(attribute, signature, decl.body)),
        },
    }
}

/// The name under which the declared body of `name` is kept.
pub fn renamed_name(name: &str) -> (r: String)
    ensures
        r@ == renamed(name@),
{
    let mut text = String::from_str(name);
    text.append("_no_invariant");
    text
}

/// Builds the guarded pair for one method.
///
/// The first method keeps `body` under the internal name. The second has
/// the declared name, parameters and return type; it checks the invariant
/// as `attribute` says around a call of the first, to which it hands the
/// bound names in order.
pub fn synthesize(attribute: &AttributeSpec, signature: &MethodSignature, body: &str) -> (r:
    TransformationResult)
    ensures
        r@ == synthesize_spec(attribute@, signature@, body@),
{
    let renamed_original = MethodDefinition {
        name: renamed_name(signature.name.as_str()),
        params: clone_params(&signature.params),
        return_type: clone_optional_text(&signature.return_type),
        body: MethodBody::Original(String::from_str(body)),
    };
    let wrapper = MethodDefinition {
        name: signature.name.clone(),
        params: clone_params(&signature.params),
        return_type: clone_optional_text(&signature.return_type),
        body: MethodBody::Guarded(
            GuardedCall {
                invariant: attribute.invariant_name.clone(),
                target: renamed_name(signature.name.as_str()),
                arguments: clone_texts(&signature.arg_names),
                timing: attribute.timing,
                binds_result: signature.return_type.is_some(),
            },
        ),
    };
    TransformationResult { renamed_original, wrapper }
}

/// Generates the guarded pair for the method `item` under the configuration
/// `attr`.
///
/// Fails with `MalformedAttribute` where `attr` does not start with an
/// identifier or an option lacks its comma, with `InvalidTimingKeyword`
/// where a literal among the options is no timing word, and with
/// `MissingReceiver` where the first parameter of `item` is no receiver.
pub fn check_invariant(attr: &Vec<ConfigToken>, item: &MethodDecl) -> (r: Result<
    TransformationResult,
    TransformError,
>)
    ensures
        viewed(r) == check_invariant_spec(token_views(attr@), item@),
{
    let attribute = match parse_attribute(attr) {
        Ok(attribute) => attribute,
        Err(e) => {
            return Err(e);
        },
    };
    let signature = match extract_signature(item) {
        Ok(signature) => signature,
        Err(e) => {
            return Err(e);
        },
    };
    Ok(synthesize(&attribute, &signature, item.body.as_str()))
}

} // verus!
