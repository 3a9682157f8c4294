//! From source text to source text: the configuration and the declaration
//! are read with `proc_macro2` and `syn`, and the guarded pair is written
//! out again.
//!
//! What the two crates make of a text is theirs to say. The functions here
//! that call them promise what holds of every answer; the functions that
//! take the answers as arguments say exactly what comes of each.

use crate::attr::{parse_attribute, parse_attribute_spec};
use crate::error::{viewed, TransformError, TransformErrorView};
use crate::render::result_text;
use crate::signature::{extract_signature, signature_of, MethodDecl, MethodDeclView, Param};
use crate::synth::{synthesize, synthesize_spec};
use crate::token::{token_views, ConfigToken, ConfigTokenView};
use proc_macro2::{TokenStream, TokenTree};
use quote::ToTokens;
use std::str::FromStr;
use vstd::prelude::*;

verus! {

/// The error with which `proc_macro2` refuses a text that holds no
/// sequence of tokens.
#[verifier::external_type_specification]
#[verifier::external_body]
pub struct ExLexError(proc_macro2::LexError);

/// The error with which `syn` refuses tokens that are not what was asked
/// for.
#[verifier::external_type_specification]
#[verifier::external_body]
pub struct ExSynError(syn::Error);

/// The syntax tree that `syn` builds for a function.
#[verifier::external_type_specification]
#[verifier::external_body]
pub struct ExItemFn(syn::ItemFn);

/// Calls `proc_macro2::TokenStream::from_str` on `text` and hands out the
/// token trees of the stream, each as its kind and its source text.
/// Every word comes out as an identifier: the lexer does not tell keywords
/// from other words. Nothing is claimed of which tokens a text gives.
#[verifier::external_body]
fn lex(text: &str) -> (r: Result<Vec<ConfigToken>, proc_macro2::LexError>) {
    let stream = TokenStream::from_str(text)?;
    Ok(
        stream.into_iter().map(
            |tree|
                match tree {
                    TokenTree::Ident(ident) => ConfigToken::Ident(ident.to_string()),
                    TokenTree::Punct(punct) => ConfigToken::Punct(punct.as_char()),
                    TokenTree::Literal(literal) => ConfigToken::Literal(literal.to_string()),
                    TokenTree::Group(group) => ConfigToken::Group(group.to_string()),
                },
        ).collect(),
    )
}

/// The words that `syn` never takes for an identifier: the lone
/// underscore and the keywords that its parser of `syn::Ident` lists.
pub open spec fn is_reserved_word(word: Seq<char>) -> bool {
    word == "_"@
        || word == "abstract"@
        || word == "as"@
        || word == "async"@
        || word == "await"@
        || word == "become"@
        || word == "box"@
        || word == "break"@
        || word == "const"@
        || word == "continue"@
        || word == "crate"@
        || word == "do"@
        || word == "dyn"@
        || word == "else"@
        || word == "enum"@
        || word == "extern"@
        || word == "false"@
        || word == "final"@
        || word == "fn"@
        || word == "for"@
        || word == "if"@
        || word == "impl"@
        || word == "in"@
        || word == "let"@
        || word == "loop"@
        || word == "macro"@
        || word == "match"@
        || word == "mod"@
        || word == "move"@
        || word == "mut"@
        || word == "override"@
        || word == "priv"@
        || word == "pub"@
        || word == "ref"@
        || word == "return"@
        || word == "Self"@
        || word == "self"@
        || word == "static"@
        || word == "struct"@
        || word == "super"@
        || word == "trait"@
        || word == "true"@
        || word == "try"@
        || word == "type"@
        || word == "typeof"@
        || word == "unsafe"@
        || word == "unsized"@
        || word == "use"@
        || word == "virtual"@
        || word == "where"@
        || word == "while"@
        || word == "yield"@
}

/// Whether `token` is an identifier whose word is reserved.
pub open spec fn is_reserved_ident(token: ConfigTokenView) -> bool {
    token matches ConfigTokenView::Ident(word) && is_reserved_word(word)
}

/// Calls `syn::parse_str` for a `syn::Ident` on `word` and says whether it
/// succeeded. It never does for a word of `is_reserved_word`: the parser
/// refuses an identifier that reads as one of them, and nothing else can
/// come of such a word. Of other words nothing is claimed.
#[verifier::external_body]
fn is_identifier(word: &str) -> (r: bool)
    ensures
        is_reserved_word(word@) ==> !r,
{
    syn::parse_str::<syn::Ident>(word).is_ok()
}

/// Calls `syn::parse_str` for a `syn::ItemFn` on `text`. Nothing is
/// claimed of how a text is parsed.
#[verifier::external_body]
fn parse_item_fn(text: &str) -> (r: Result<syn::ItemFn, syn::Error>) {
    syn::parse_str::<syn::ItemFn>(text)
}

/// Reads the name in the signature of a `syn::ItemFn`, as `to_string`
/// gives it.
#[verifier::external_body]
fn item_name(item: &syn::ItemFn) -> (r: String) {
    item.sig.ident.to_string()
}

/// Hands out the inputs in the signature of a `syn::ItemFn`, each as the
/// source text that `to_token_stream` gives for it. A `syn::FnArg::Typed`
/// has a name where its pattern is a `syn::Pat::Ident`: that of the
/// identifier.
#[verifier::external_body]
fn item_params(item: &syn::ItemFn) -> (r: Vec<Param>) {
    let param = |arg: &syn::FnArg| match arg {
        syn::FnArg::Receiver(receiver) => Param::Receiver {
            text: receiver.to_token_stream().to_string(),
        },
        syn::FnArg::Typed(typed) => Param::Typed {
            name: match &*typed.pat {
                syn::Pat::Ident(pattern) => Some(pattern.ident.to_string()),
                _ => None,
            },
            text: typed.to_token_stream().to_string(),
        },
    };
    item.sig.inputs.iter().map(param).collect()
}

/// Reads the output in the signature of a `syn::ItemFn`: the type after
/// the arrow as the source text that `to_token_stream` gives for it, or
/// nothing for `syn::ReturnType::Default`.
#[verifier::external_body]
fn item_return_type(item: &syn::ItemFn) -> (r: Option<String>) {
    match &item.sig.output {
        syn::ReturnType::Default => None,
        syn::ReturnType::Type(_, ty) => Some(ty.to_token_stream().to_string()),
    }
}

/// Reads the block of a `syn::ItemFn` as the source text that
/// `to_token_stream` gives for it, braces included.
#[verifier::external_body]
fn item_body(item: &syn::ItemFn) -> (r: String) {
    item.block.to_token_stream().to_string()
}

/// Calls `to_string` on a `syn::Error`, which gives its message.
#[verifier::external_body]
fn parse_error_text(error: &syn::Error) -> (r: String) {
    error.to_string()
}

/// The token for a word: an identifier where `accepted`, else a keyword.
pub fn classify_word(word: String, accepted: bool) -> (r: ConfigToken)
    ensures
        r@ == if accepted {
            ConfigTokenView::Ident(word@)
        } else {
            ConfigTokenView::Keyword(word@)
        },
{
    if accepted {
        ConfigToken::Ident(word)
    } else {
        ConfigToken::Keyword(word)
    }
}

/// Whether `after` is `before` with some of its words marked as keywords
/// and nothing else changed.
pub open spec fn marks_keywords(before: ConfigTokenView, after: ConfigTokenView) -> bool {
    after == before || (before matches ConfigTokenView::Ident(word) && after
        == ConfigTokenView::Keyword(word))
}

/// Marks the words among `tokens` that `syn` does not take for
/// identifiers as keywords. An identifier whose word is reserved always
/// becomes a keyword; of another identifier `syn` decides. Every other
/// token stays as it is.
pub fn reserve_keywords(tokens: Vec<ConfigToken>) -> (r: Vec<ConfigToken>)
    ensures
        r.len() == tokens.len(),
        forall|i: int| 0 <= i < r.len() ==> marks_keywords(tokens[i]@, #[trigger] r[i]@),
        forall|i: int|
            0 <= i < r.len() && is_reserved_ident(tokens[i]@) ==> #[trigger] r[i]@
                == ConfigTokenView::Keyword(tokens[i]@->Ident_0),
{
    let mut marked: Vec<ConfigToken> = Vec::new();
    let mut i: usize = 0;
    while i < tokens.len()
        invariant
            i <= tokens.len(),
            marked.len() == i,
            forall|k: int| 0 <= k < i ==> marks_keywords(tokens[k]@, #[trigger] marked[k]@),
            forall|k: int|
                0 <= k < i && is_reserved_ident(tokens[k]@) ==> #[trigger] marked[k]@
                    == ConfigTokenView::Keyword(tokens[k]@->Ident_0),
        decreases tokens.len() - i,
    {
        let token = match &tokens[i] {
            ConfigToken::Ident(word) => classify_word(word.clone(), is_identifier(word.as_str())),
            other => other.clone(),
        };
        marked.push(token);
        i = i + 1;
    }
    marked
}

/// Reads a configuration from its source text. Gives nothing where the
/// text holds no sequence of tokens. Which tokens a text holds is the
/// lexer's answer; among them no reserved word is left as an identifier.
pub fn tokenize(text: &str) -> (r: Option<Vec<ConfigToken>>)
    ensures
        r matches Some(tokens) ==> forall|i: int|
            0 <= i < tokens.len() ==> !is_reserved_ident(#[trigger] tokens[i]@),
{
    match lex(text) {
        Ok(tokens) => {
            let marked = reserve_keywords(tokens);
            assert forall|i: int| 0 <= i < marked.len() implies !is_reserved_ident(
                #[trigger] marked[i]@,
            ) by {
                assert(marks_keywords(tokens[i]@, marked[i]@));
            }
            Some(marked)
        },
        Err(_) => None,
    }
}

/// Reads a method declaration from its source text. Fails with
/// `MalformedDeclaration` and the parser's message where the text is not
/// one function, and with nothing else.
pub fn read_method(text: &str) -> (r: Result<MethodDecl, TransformError>)
    ensures
        r matches Err(e) ==> e is MalformedDeclaration,
{
    match parse_item_fn(text) {
        Ok(item) => Ok(
            MethodDecl {
                name: item_name(&item),
                params: item_params(&item),
                return_type: item_return_type(&item),
                body: item_body(&item),
            },
        ),
        Err(e) => Err(TransformError::MalformedDeclaration(parse_error_text(&e))),
    }
}

/// The view of what reading a configuration gave.
pub open spec fn tokens_read(tokens: Option<Vec<ConfigToken>>) -> Option<Seq<ConfigTokenView>> {
    match tokens {
        Some(tokens) => Some(token_views(tokens@)),
        None => None,
    }
}

/// What `expand_parsed` returns. The first of these that applies: the
/// configuration could not be read or has not the shape of one,
/// `MalformedAttribute`; a literal among its options is no timing word,
/// `InvalidTimingKeyword`; the declaration could not be read, the failure
/// of reading it; its first parameter is no receiver, `MissingReceiver`.
/// Else the source text of the guarded pair.
pub open spec fn expand_spec(
    tokens: Option<Seq<ConfigTokenView>>,
    decl: Result<MethodDeclView, TransformErrorView>,
) -> Result<Seq<char>, TransformErrorView> {
    match tokens {
        None => Err(TransformErrorView::MalformedAttribute),
        Some(tokens) => match parse_attribute_spec(tokens) {
            Err(e) => Err(e),
            Ok(attribute) => match decl {
                Err(e) => Err(e),
                Ok(decl) => match signature_of(decl) {
                    Err(e) => Err(e),
                    Ok(signature) => Ok(
                        result_text(synthesize_spec(attribute, signature, decl.body)),
                    ),
                },
            },
        },
    }
}

/// Generates the source text of the guarded pair from what reading the
/// configuration and the declaration gave.
pub fn expand_parsed(tokens: Option<Vec<ConfigToken>>, decl: Result<MethodDecl, TransformError>) -> (r:
    Result<String, TransformError>)
    ensures
        viewed(r) == expand_spec(tokens_read(tokens), viewed(decl)),
{
    let tokens = match tokens {
        Some(tokens) => tokens,
        None => {
            return Err(TransformError::MalformedAttribute);
        },
    };
    let attribute = match parse_attribute(&tokens) {
        Ok(attribute) => attribute,
        Err(e) => {
            return Err(e);
        },
    };
    let decl = match decl {
        Ok(decl) => decl,
        Err(e) => {
            return Err(e);
        },
    };
    let signature = match extract_signature(&decl) {
        Ok(signature) => signature,
        Err(e) => {
            return Err(e);
        },
    };
    Ok(synthesize(&attribute, &signature, decl.body.as_str()).render())
}

/// Generates the source text of the guarded pair for the method written in
/// `item` under the configuration written in `attr`.
///
/// The result is what `expand_parsed` makes of the tokens that the lexer
/// finds in `attr` and of the function that the parser finds in `item`,
/// whatever those are; a declaration that cannot be read fails as
/// `MalformedDeclaration`.
pub fn expand_source(attr: &str, item: &str) -> (r: Result<String, TransformError>)
    ensures
        exists|tokens: Option<Seq<ConfigTokenView>>, decl: Result<MethodDeclView, TransformErrorView>|
            (decl matches Err(e) ==> e is MalformedDeclaration) && viewed(r)
                == #[trigger] expand_spec(tokens, decl),
{
    let tokens = tokenize(attr);
    let decl = read_method(item);
    let ghost tokens_view = tokens_read(tokens);
    let ghost decl_view = viewed(decl);
    let r = expand_parsed(tokens, decl);
    assert(viewed(r) == expand_spec(tokens_view, decl_view));
    r
}

} // verus!
