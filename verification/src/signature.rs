//! A method declaration, and the parts of it that a wrapper needs.

use crate::error::{viewed, TransformError, TransformErrorView};
use crate::text::{clone_optional_text, optional_text, text_views};
use vstd::prelude::*;

verus! {

/// One parameter of a declaration.
#[derive(Debug, PartialEq, Eq)]
pub enum Param {
    /// The instance that the method is called on, such as `&mut self`.
    Receiver {
        /// The parameter as it was written.
        text: String,
    },
    /// A parameter with a pattern and a type, such as `count: usize`.
    Typed {
        /// The name it binds, where the pattern is a plain name.
        name: Option<String>,
        /// The parameter as it was written, pattern and type.
        text: String,
    },
}

/// A parameter as contracts see it.
pub enum ParamView {
    Receiver { text: Seq<char> },
    Typed { name: Option<Seq<char>>, text: Seq<char> },
}

impl View for Param {
    type V = ParamView;

    open spec fn view(&self) -> ParamView {
        match self {
            Param::Receiver { text } => ParamView::Receiver { text: text@ },
            Param::Typed { name, text } => ParamView::Typed {
                name: optional_text(*name),
                text: text@,
            },
        }
    }
}

impl Clone for Param {
    fn clone(&self) -> (r: Self)
        ensures
            r@ == self@,
    {
        match self {
            Param::Receiver { text } => Param::Receiver { text: text.clone() },
            Param::Typed { name, text } => Param::Typed {
                name: clone_optional_text(name),
                text: text.clone(),
            },
        }
    }
}

/// The views of a list of parameters, in order.
pub open spec fn param_views(params: Seq<Param>) -> Seq<ParamView> {
    Seq::new(params.len(), |i: int| params[i]@)
}

/// A copy of a list of parameters.
pub fn clone_params(params: &Vec<Param>) -> (r: Vec<Param>)
    ensures
        param_views(r@) == param_views(params@),
{
    let mut copy: Vec<Param> = Vec::new();
    let mut i: usize = 0;
    while i < params.len()
        invariant
            i <= params.len(),
            copy.len() == i,
            forall|k: int| 0 <= k < i ==> (#[trigger] copy[k])@ == params[k]@,
        decreases params.len() - i,
    {
        copy.push(params[i].clone());
        i = i + 1;
    }
    assert(param_views(copy@) =~= param_views(params@));
    copy
}

/// A method as it was declared.
#[derive(Debug, PartialEq, Eq)]
pub struct MethodDecl {
    /// The method's name.
    pub name: String,
    /// The parameters, the receiver among them, in the order written.
    pub params: Vec<Param>,
    /// The type after the arrow, if there is one.
    pub return_type: Option<String>,
    /// The body, braces included.
    pub body: String,
}

/// A declaration as contracts see it.
pub struct MethodDeclView {
    pub name: Seq<char>,
    pub params: Seq<ParamView>,
    pub return_type: Option<Seq<char>>,
    pub body: Seq<char>,
}

impl View for MethodDecl {
    type V = MethodDeclView;

    open spec fn view(&self) -> MethodDeclView {
        MethodDeclView {
            name: self.name@,
            params: param_views(self.params@),
            return_type: optional_text(self.return_type),
            body: self.body@,
        }
    }
}

/// What a wrapper has to reproduce and to forward.
#[derive(Debug, PartialEq, Eq)]
pub struct MethodSignature {
    /// The method's name.
    pub name: String,
    /// Whether the first parameter is a receiver.
    pub has_receiver: bool,
    /// All parameters as they were written, the receiver first.
    pub params: Vec<Param>,
    /// The names that the parameters bind, in order. A parameter whose
    /// pattern is not a plain name has none and is left out.
    pub arg_names: Vec<String>,
    /// The type after the arrow, if there is one.
    pub return_type: Option<String>,
}

/// A signature as contracts see it.
pub struct MethodSignatureView {
    pub name: Seq<char>,
    pub has_receiver: bool,
    pub params: Seq<ParamView>,
    pub arg_names: Seq<Seq<char>>,
    pub return_type: Option<Seq<char>>,
}

impl View for MethodSignature {
    type V = MethodSignatureView;

    open spec fn view(&self) -> MethodSignatureView {
        MethodSignatureView {
            name: self.name@,
            has_receiver: self.has_receiver,
            params: param_views(self.params@),
            arg_names: text_views(self.arg_names@),
            return_type: optional_text(self.return_type),
        }
    }
}

/// Whether the first parameter is a receiver.
pub open spec fn starts_with_receiver(params: Seq<ParamView>) -> bool {
    params.len() > 0 && params[0] is Receiver
}

/// Whether `param` binds a plain name.
pub open spec fn binds_name(param: ParamView) -> bool {
    param matches ParamView::Typed { name: Some(_), .. }
}

/// The names that `params` bind, in their order: one for each parameter
/// whose pattern is a plain name, none for a receiver or another pattern.
pub open spec fn bound_names(params: Seq<ParamView>) -> Seq<Seq<char>> {
    params.filter(|p: ParamView| binds_name(p)).map_values(|p: ParamView| p->name->0)
}

/// What `extract_signature` returns for `decl`.
pub open spec fn signature_of(decl: MethodDeclView) -> Result<
    MethodSignatureView,
    TransformErrorView,
> {
    if starts_with_receiver(decl.params) {
        Ok(
            MethodSignatureView {
                name: decl.name,
                has_receiver: true,
                params: decl.params,
                arg_names: bound_names(decl.params),
                return_type: decl.return_type,
            },
        )
    } else {
        Err(TransformErrorView::MissingReceiver)
    }
}

/// The names that `params` bind, in their order.
pub fn collect_bound_names(params: &Vec<Param>) -> (r: Vec<String>)
    ensures
        text_views(r@) == bound_names(param_views(params@)),
{
    let ghost views = param_views(params@);
    let mut names: Vec<String> = Vec::new();
    let mut i: usize = 0;
    proof {
        assert(views.take(0) =~= Seq::<ParamView>::empty());
        assert(text_views(names@) =~= bound_names(views.take(0)));
    }
    while i < params.len()
        invariant
            views == param_views(params@),
            i <= params.len(),
            text_views(names@) == bound_names(views.take(i as int)),
        decreases params.len() - i,
    {
        proof {
            lemma_bound_names_step(views, i as int);
        }
        let ghost before = names@;
        match &params[i] {
            Param::Typed { name: Some(name), .. } => {
                names.push(name.clone());
                assert(text_views(names@) =~= text_views(before).push(name@));
            },
            _ => {},
        }
        i = i + 1;
    }
    proof {
        assert(views.take(i as int) =~= views);
    }
    names
}

/// How the bound names grow when one more parameter is looked at.
pub proof fn lemma_bound_names_step(params: Seq<ParamView>, i: int)
    requires
        0 <= i < params.len(),
    ensures
        bound_names(params.take(i + 1)) == if binds_name(params[i]) {
            bound_names(params.take(i)).push(params[i]->name->0)
        } else {
            bound_names(params.take(i))
        },
{
    let keep = |p: ParamView| binds_name(p);
    let name = |p: ParamView| p->name->0;
    let shorter = params.take(i);
    assert(params.take(i + 1) =~= shorter.push(params[i]));
    reveal(Seq::filter);
    assert(shorter.push(params[i]).drop_last() =~= shorter);
    assert(shorter.push(params[i]).filter(keep) == if keep(params[i]) {
        shorter.filter(keep).push(params[i])
    } else {
        shorter.filter(keep)
    });
    if keep(params[i]) {
        assert(shorter.filter(keep).push(params[i]).map_values(name) =~= shorter.filter(
            keep,
        ).map_values(name).push(name(params[i])));
    }
}

/// Takes from a declaration what a wrapper needs.
/// Fails with `MissingReceiver` unless the first parameter is a receiver.
pub fn extract_signature(decl: &MethodDecl) -> (r: Result<MethodSignature, TransformError>)
    ensures
        viewed(r) == signature_of(decl@),
{
    if decl.params.len() == 0 {
        return Err(TransformError::MissingReceiver);
    }
    match &decl.params[0] {
        Param::Receiver { .. } => {},
        _ => {
            assert(!(decl@.params[0] is Receiver));
            return Err(TransformError::MissingReceiver);
        },
    }
    assert(decl@.params[0] is Receiver);
    Ok(
        MethodSignature {
            name: decl.name.clone(),
            has_receiver: true,
            params: clone_params(&decl.params),
            arg_names: collect_bound_names(&decl.params),
            return_type: clone_optional_text(&decl.return_type),
        },
    )
}

} // verus!
