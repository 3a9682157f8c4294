//! Writing generated methods out as source text.

use crate::signature::{param_views, Param, ParamView};
use crate::synth::{
    GuardedCall, GuardedCallView, MethodBody, MethodBodyView, MethodDefinition,
    MethodDefinitionView, TransformationResult, TransformationResultView,
};
use crate::text::{join_texts, joined, text_views};
use crate::timing::Phase;
use vstd::prelude::*;

verus! {

/// The word that names `phase` in a failure message.
pub open spec fn phase_word(phase: Phase) -> Seq<char> {
    match phase {
        Phase::Entry => "entry"@,
        Phase::Exit => "exit"@,
    }
}

/// The source text of a parameter.
pub open spec fn param_text(param: ParamView) -> Seq<char> {
    match param {
        ParamView::Receiver { text } => text,
        ParamView::Typed { text, .. } => text,
    }
}

/// The source texts of a list of parameters, in order.
pub open spec fn param_texts(params: Seq<ParamView>) -> Seq<Seq<char>> {
    Seq::new(params.len(), |i: int| param_text(params[i]))
}

/// The statement that checks `invariant` at `phase` and aborts the call
/// with a message where it does not hold.
pub open spec fn guard_text(invariant: Seq<char>, phase: Phase) -> Seq<char> {
    "if !self."@ + invariant + "() { panic!(\"Invariant {} failed on "@ + phase_word(phase)
        + "\", stringify!("@ + invariant + ")); }"@
}

/// The call that hands the bound names on to the method that holds the
/// declared body.
pub open spec fn call_text(call: GuardedCallView) -> Seq<char> {
    "self."@ + call.target + "("@ + joined(call.arguments, ", "@) + ")"@
}

/// The check on entry and a space, where the timing asks for it.
pub open spec fn entry_part(call: GuardedCallView) -> Seq<char> {
    if call.timing.checks(Phase::Entry) {
        guard_text(call.invariant, Phase::Entry) + " "@
    } else {
        Seq::empty()
    }
}

/// A space and the check on exit, where the timing asks for it.
pub open spec fn exit_part(call: GuardedCallView) -> Seq<char> {
    if call.timing.checks(Phase::Exit) {
        " "@ + guard_text(call.invariant, Phase::Exit)
    } else {
        Seq::empty()
    }
}

/// The statements of a wrapper, in order: the check on entry, the call,
/// the check on exit, the result.
pub open spec fn guarded_text(call: GuardedCallView) -> Seq<char> {
    entry_part(call) + (if call.binds_result {
        "let result = "@
    } else {
        Seq::empty()
    }) + call_text(call) + ";"@ + exit_part(call) + (if call.binds_result {
        " result"@
    } else {
        Seq::empty()
    })
}

/// The source text of a body.
pub open spec fn body_text(body: MethodBodyView) -> Seq<char> {
    match body {
        MethodBodyView::Original(text) => text,
        MethodBodyView::Guarded(call) => guarded_text(call),
    }
}

/// An arrow and the return type, where there is one.
pub open spec fn return_part(return_type: Option<Seq<char>>) -> Seq<char> {
    match return_type {
        Some(text) => " -> "@ + text,
        None => Seq::empty(),
    }
}

/// The header of a method: its name, its parameters and its return type,
/// each as it was written.
pub open spec fn header_text(
    name: Seq<char>,
    params: Seq<ParamView>,
    return_type: Option<Seq<char>>,
) -> Seq<char> {
    "fn "@ + name + "("@ + joined(param_texts(params), ", "@) + ")"@ + return_part(return_type)
}

/// The source text of a method: its header, then its body in braces.
pub open spec fn definition_text(definition: MethodDefinitionView) -> Seq<char> {
    header_text(definition.name, definition.params, definition.return_type) + " { "@ + body_text(
        definition.body,
    ) + " }"@
}

/// The source text of a guarded pair: the renamed method, then the wrapper.
pub open spec fn result_text(pair: TransformationResultView) -> Seq<char> {
    definition_text(pair.renamed_original) + "\n"@ + definition_text(pair.wrapper)
}

impl Phase {
    /// The word that names this phase in a failure message.
    pub fn word(self) -> (r: &'static str)
        ensures
            r@ == phase_word(self),
    {
        match self {
            Phase::Entry => "entry",
            Phase::Exit => "exit",
        }
    }
}

impl Param {
    /// The parameter as it was written.
    pub fn text(&self) -> (r: &String)
        ensures
            r@ == param_text(self@),
    {
        match self {
            Param::Receiver { text } => text,
            Param::Typed { text, .. } => text,
        }
    }
}

/// Writes the statement that checks `predicate` at `phase`.
pub fn render_guard(predicate: &str, phase: Phase) -> (r: String)
    ensures
        r@ == guard_text(predicate@, phase),
{
    let mut out = String::from_str("if !self.");
    out.append(predicate);
    out.append("() { panic!(\"Invariant {} failed on ");
    out.append(phase.word());
    out.append("\", stringify!(");
    out.append(predicate);
    out.append(")); }");
    out
}

/// Writes the parameters of a method, separated by commas.
pub fn render_params(params: &Vec<Param>) -> (r: String)
    ensures
        r@ == joined(param_texts(param_views(params@)), ", "@),
{
    let mut texts: Vec<String> = Vec::new();
    let mut i: usize = 0;
    while i < params.len()
        invariant
            i <= params.len(),
            texts.len() == i,
            forall|k: int| 0 <= k < i ==> (#[trigger] texts[k])@ == param_text(params[k]@),
        decreases params.len() - i,
    {
        texts.push(params[i].text().clone());
        i = i + 1;
    }
    assert(text_views(texts@) =~= param_texts(param_views(params@)));
    join_texts(&texts, ", ")
}

impl GuardedCall {
    /// Writes the statements of the wrapper.
    pub fn render(&self) -> (r: String)
        ensures
            r@ == guarded_text(self@),
    {
        let mut out = String::new();
        if self.timing.is_checked(Phase::Entry) {
            let guard = render_guard(self.invariant.as_str(), Phase::Entry).concat(" ");
            out.append(guard.as_str());
        }
        assert(out@ =~= entry_part(self@));
        if self.binds_result {
            out.append("let result = ");
        }
        let mut call = String::from_str("self.");
        call.append(self.target.as_str());
        call.append("(");
        call.append(join_texts(&self.arguments, ", ").as_str());
        call.append(")");
        out.append(call.as_str());
        out.append(";");
        if self.timing.is_checked(Phase::Exit) {
            let guard = String::from_str(" ").concat(
                render_guard(self.invariant.as_str(), Phase::Exit).as_str(),
            );
            out.append(guard.as_str());
        }
        if self.binds_result {
            out.append(" result");
        }
        assert(out@ =~= guarded_text(self@));
        out
    }
}

impl MethodBody {
    /// Writes the body.
    pub fn render(&self) -> (r: String)
        ensures
            r@ == body_text(self@),
    {
        match self {
            MethodBody::Original(text) => text.clone(),
            MethodBody::Guarded(call) => call.render(),
        }
    }
}

impl MethodDefinition {
    /// Writes the header of the method.
    pub fn render_header(&self) -> (r: String)
        ensures
            r@ == header_text(self@.name, self@.params, self@.return_type),
    {
        let mut out = String::from_str("fn ");
        out.append(self.name.as_str());
        out.append("(");
        out.append(render_params(&self.params).as_str());
        out.append(")");
        match &self.return_type {
            Some(text) => {
                let part = String::from_str(" -> ").concat(text.as_str());
                out.append(part.as_str());
            },
            None => {},
        }
        assert(out@ =~= header_text(self@.name, self@.params, self@.return_type));
        out
    }

    /// Writes the method as source text.
    pub fn render(&self) -> (r: String)
        ensures
            r@ == definition_text(self@),
    {
        let mut out = self.render_header();
        out.append(" { ");
        out.append(self.body.render().as_str());
        out.append(" }");
        out
    }
}

impl TransformationResult {
    /// Writes both methods as source text, the renamed one first.
    pub fn render(&self) -> (r: String)
        ensures
            r@ == result_text(self@),
    {
        let mut out = self.renamed_original.render();
        out.append("\n");
        out.append(self.wrapper.render().as_str());
        out
    }
}

} // verus!
