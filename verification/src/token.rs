//! The tokens of a configuration: what stands between the brackets of the
//! annotation on a method.

use vstd::prelude::*;

verus! {

/// One token tree of a configuration.
#[derive(Debug, PartialEq, Eq)]
pub enum ConfigToken {
    /// A word that can name something, such as `my_invariant`.
    Ident(String),
    /// A word that cannot name anything: one that the language reserves,
    /// such as `fn`, or a lone underscore.
    Keyword(String),
    /// One punctuation character, such as `,`.
    Punct(char),
    /// A literal, as its source text: a string literal keeps its quotes.
    Literal(String),
    /// A bracketed group, as its source text.
    Group(String),
}

/// A token as contracts see it: text is a sequence of characters.
pub enum ConfigTokenView {
    Ident(Seq<char>),
    Keyword(Seq<char>),
    Punct(char),
    Literal(Seq<char>),
    Group(Seq<char>),
}

impl View for ConfigToken {
    type V = ConfigTokenView;

    open spec fn view(&self) -> ConfigTokenView {
        match self {
            ConfigToken::Ident(s) => ConfigTokenView::Ident(s@),
            ConfigToken::Keyword(s) => ConfigTokenView::Keyword(s@),
            ConfigToken::Punct(c) => ConfigTokenView::Punct(*c),
            ConfigToken::Literal(s) => ConfigTokenView::Literal(s@),
            ConfigToken::Group(s) => ConfigTokenView::Group(s@),
        }
    }
}

impl Clone for ConfigToken {
    fn clone(&self) -> (r: Self)
        ensures
            r@ == self@,
    {
        match self {
            ConfigToken::Ident(s) => ConfigToken::Ident(s.clone()),
            ConfigToken::Keyword(s) => ConfigToken::Keyword(s.clone()),
            ConfigToken::Punct(c) => ConfigToken::Punct(*c),
            ConfigToken::Literal(s) => ConfigToken::Literal(s.clone()),
            ConfigToken::Group(s) => ConfigToken::Group(s.clone()),
        }
    }
}

impl ConfigToken {
    /// Whether this token is the comma that separates two options.
    pub fn is_separator(&self) -> (r: bool)
        ensures
            r == is_separator(self@),
    {
        match self {
            ConfigToken::Punct(c) => *c == ',',
            _ => false,
        }
    }
}

/// Whether `token` is the comma that separates two options.
pub open spec fn is_separator(token: ConfigTokenView) -> bool {
    token == ConfigTokenView::Punct(',')
}

/// The views of a list of tokens, in order.
pub open spec fn token_views(tokens: Seq<ConfigToken>) -> Seq<ConfigTokenView> {
    Seq::new(tokens.len(), |i: int| tokens[i]@)
}

} // verus!
