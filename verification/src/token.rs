//! The tokens of a control directive, as far as the generator reads them.

use vstd::prelude::*;

verus! {

/// The brackets around a group of tokens.
#[derive(Clone, Copy, Debug, PartialEq, Eq)]
pub enum Delimiter {
    /// `( ... )`
    Parenthesis,
    /// `{ ... }`
    Brace,
    /// `[ ... ]`
    Bracket,
    /// A group without written brackets.
    Invisible,
}

/// One token tree. A group is kept as its delimiter and the text of the
/// tokens inside it: the generator splices that text and never looks into it.
#[derive(Clone, Debug, PartialEq, Eq)]
pub enum Token {
    /// An identifier or keyword.
    Ident(String),
    /// A single punctuation character.
    Punct(char),
    /// A literal, as written.
    Literal(String),
    /// A delimited group and the text of its contents.
    Group(Delimiter, String),
}

/// What a `Token` holds, as a mathematical value.
pub enum TokenView {
    Ident(Seq<char>),
    Punct(char),
    Literal(Seq<char>),
    Group(Delimiter, Seq<char>),
}

impl View for Token {
    type V = TokenView;

    open spec fn view(&self) -> TokenView {
        match *self {
            Token::Ident(name) => TokenView::Ident(name@),
            Token::Punct(c) => TokenView::Punct(c),
            Token::Literal(text) => TokenView::Literal(text@),
            Token::Group(delimiter, inner) => TokenView::Group(delimiter, inner@),
        }
    }
}

} // verus!
